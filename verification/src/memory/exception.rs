//! Traps raised by the memory bus.

use vstd::prelude::*;

verus! {

/// A synchronous exceptional condition detected by the bus.
///
/// Alignment violations carry the required alignment in bytes; every variant
/// carries the faulting physical address.
#[derive(Clone, Copy, Debug, PartialEq, Eq, Structural)]
pub enum Trap {
    /// An instruction fetch from an address that is not 4-byte aligned.
    MisalignedFetch { addr: u64 },
    /// An instruction fetch outside the RAM region.
    FetchAccessFault { addr: u64 },
    /// A load outside the RAM region.
    LoadAccessFault { addr: u64 },
    /// A store outside the RAM region.
    StoreAccessFault { addr: u64 },
    /// A load from an address that is not `align`-byte aligned.
    MisalignedLoad { addr: u64, align: usize },
    /// A store to an address that is not `align`-byte aligned.
    MisalignedStore { addr: u64, align: usize },
}

} // verus!
