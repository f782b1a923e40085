//! A user-space functional simulator for a 64-bit RISC-V processor core.
//!
//! The crate models a single hardware thread (a hart), a flat physical-memory
//! bus, and a fetch-decode-execute loop interpreting the RV64I base integer
//! instruction set. Every instruction's effect on the architectural state is
//! stated as a specification function and the executable interpreter is
//! verified against it.

pub mod bits;
pub mod decode;
pub mod laws;
pub mod machine;
pub mod memory;
pub mod processor;

use vstd::prelude::*;

verus! {

/// The fixed instruction length in bytes: RV64I instructions are 32 bits wide.
pub const ILEN: u64 = 4;

} // verus!
