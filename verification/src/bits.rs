//! Two's-complement arithmetic helpers shared by the instruction executors.
//!
//! Registers are 64-bit unsigned values; signed semantics are obtained by
//! reinterpreting them as two's-complement integers. The specification
//! functions here define sign extension, wrapping arithmetic, and arithmetic
//! shifts, and each executable helper is proved to return exactly its
//! specification.

use vstd::prelude::*;

verus! {

/// The mathematical value of `x` read as a two's-complement 64-bit integer.
pub open spec fn as_signed(x: u64) -> int {
    if x < 0x8000_0000_0000_0000 {
        x as int
    } else {
        x - 0x1_0000_0000_0000_0000
    }
}

/// 64-bit wrapping addition.
pub open spec fn wadd(x: u64, y: u64) -> u64 {
    vstd::wrapping::u64_specs::wrapping_add(x, y)
}

/// 64-bit wrapping subtraction.
pub open spec fn wsub(x: u64, y: u64) -> u64 {
    vstd::wrapping::u64_specs::wrapping_sub(x, y)
}

/// The low 32 bits of `x`, as a value below `2^32`.
pub open spec fn lo32(x: u64) -> u64 {
    x % 0x1_0000_0000
}

/// 32-bit wrapping addition of two values below `2^32`.
pub open spec fn wadd32(x: u64, y: u64) -> u64
    recommends
        x < 0x1_0000_0000,
        y < 0x1_0000_0000,
{
    ((x + y) % 0x1_0000_0000) as u64
}

/// 32-bit wrapping subtraction of two values below `2^32`.
pub open spec fn wsub32(x: u64, y: u64) -> u64
    recommends
        x < 0x1_0000_0000,
        y < 0x1_0000_0000,
{
    ((x + 0x1_0000_0000 - y) % 0x1_0000_0000) as u64
}

/// Sign-extend an 8-bit value to 64 bits.
pub open spec fn sext8(b: u8) -> u64 {
    if b < 0x80 {
        b as u64
    } else {
        (b as u64) | 0xffff_ffff_ffff_ff00u64
    }
}

/// Sign-extend a 16-bit value to 64 bits.
pub open spec fn sext16(h: u16) -> u64 {
    if h < 0x8000 {
        h as u64
    } else {
        (h as u64) | 0xffff_ffff_ffff_0000u64
    }
}

/// Sign-extend a 32-bit value (given as a `u64` below `2^32`) to 64 bits.
pub open spec fn sext32(v: u64) -> u64
    recommends
        v < 0x1_0000_0000,
{
    if v < 0x8000_0000 {
        v
    } else {
        v | 0xffff_ffff_0000_0000u64
    }
}

/// Arithmetic right shift of a 64-bit two's-complement value.
///
/// A logical shift of the complement shifts in ones exactly where the sign
/// bit must be replicated.
pub open spec fn sra64(x: u64, sh: u64) -> u64
    recommends
        sh < 64,
{
    if x < 0x8000_0000_0000_0000 {
        x >> sh
    } else {
        !((!x) >> sh)
    }
}

/// Arithmetic right shift of a 32-bit two's-complement value
/// (given as a `u64` below `2^32`); the result is again below `2^32`.
pub open spec fn sra32(v: u64, sh: u64) -> u64
    recommends
        v < 0x1_0000_0000,
        sh < 32,
{
    if v < 0x8000_0000 {
        v >> sh
    } else {
        (v >> sh) | (0xffff_ffffu64 ^ (0xffff_ffffu64 >> sh))
    }
}

/// Signed comparison of two registers read as two's-complement values.
pub open spec fn signed_lt(a: u64, b: u64) -> bool {
    as_signed(a) < as_signed(b)
}

/// Bounds of logical right shifts, needed to show that 32-bit operations
/// stay below `2^32`.
pub proof fn lemma_shr_bounds()
    by (bit_vector)
    ensures
        forall|x: u64, sh: u64| sh < 64 ==> #[trigger] (x >> sh) <= x,
        forall|x: u64, sh: u64|
            x < 0x1_0000_0000 && sh < 32 ==> #[trigger] (x >> sh) <= 0xffff_ffffu64 >> sh,
        forall|sh: u64| sh < 32 ==> #[trigger] (0xffff_ffffu64 >> sh) <= 0xffff_ffff,
{
}

/// The result of a 32-bit arithmetic shift stays below `2^32`.
pub proof fn lemma_sra32_bound(v: u64, sh: u64)
    requires
        v < 0x1_0000_0000,
        sh < 32,
    ensures
        sra32(v, sh) < 0x1_0000_0000,
{
    lemma_shr_bounds();
    if v < 0x8000_0000 {
    } else {
        assert(((v >> sh) | (0xffff_ffffu64 ^ (0xffff_ffffu64 >> sh))) <= 0xffff_ffff) by (bit_vector)
            requires
                v < 0x1_0000_0000,
                sh < 32,
        ;
    }
}

/// Executable low-32-bit extraction.
pub fn lo32_exec(x: u64) -> (r: u64)
    ensures
        r == lo32(x),
        r < 0x1_0000_0000,
{
    x % 0x1_0000_0000
}

/// Executable 8-bit sign extension.
pub fn sext8_exec(b: u8) -> (r: u64)
    ensures
        r == sext8(b),
{
    if b < 0x80 {
        b as u64
    } else {
        (b as u64) | 0xffff_ffff_ffff_ff00
    }
}

/// Executable 16-bit sign extension.
pub fn sext16_exec(h: u16) -> (r: u64)
    ensures
        r == sext16(h),
{
    if h < 0x8000 {
        h as u64
    } else {
        (h as u64) | 0xffff_ffff_ffff_0000
    }
}

/// Executable 32-bit sign extension.
pub fn sext32_exec(v: u64) -> (r: u64)
    requires
        v < 0x1_0000_0000,
    ensures
        r == sext32(v),
{
    if v < 0x8000_0000 {
        v
    } else {
        v | 0xffff_ffff_0000_0000
    }
}

/// Executable 64-bit arithmetic right shift.
pub fn sra64_exec(x: u64, sh: u64) -> (r: u64)
    requires
        sh < 64,
    ensures
        r == sra64(x, sh),
{
    if x < 0x8000_0000_0000_0000 {
        x >> sh
    } else {
        !((!x) >> sh)
    }
}

/// Executable 32-bit arithmetic right shift.
pub fn sra32_exec(v: u64, sh: u64) -> (r: u64)
    requires
        v < 0x1_0000_0000,
        sh < 32,
    ensures
        r == sra32(v, sh),
        r < 0x1_0000_0000,
{
    proof {
        lemma_sra32_bound(v, sh);
    }
    if v < 0x8000_0000 {
        v >> sh
    } else {
        (v >> sh) | (0xffff_ffffu64 ^ (0xffff_ffffu64 >> sh))
    }
}

/// Executable signed comparison, by flipping the sign bits and comparing
/// unsigned.
pub fn signed_lt_exec(a: u64, b: u64) -> (r: bool)
    ensures
        r == signed_lt(a, b),
{
    proof {
        assert((a < 0x8000_0000_0000_0000 ==> (a ^ 0x8000_0000_0000_0000) == a
            + 0x8000_0000_0000_0000) && (a >= 0x8000_0000_0000_0000 ==> (a
            ^ 0x8000_0000_0000_0000) == a - 0x8000_0000_0000_0000) && (b
            < 0x8000_0000_0000_0000 ==> (b ^ 0x8000_0000_0000_0000) == b
            + 0x8000_0000_0000_0000) && (b >= 0x8000_0000_0000_0000 ==> (b
            ^ 0x8000_0000_0000_0000) == b - 0x8000_0000_0000_0000)) by (bit_vector);
    }
    (a ^ 0x8000_0000_0000_0000) < (b ^ 0x8000_0000_0000_0000)
}

} // verus!
