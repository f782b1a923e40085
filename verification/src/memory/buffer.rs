//! The raw byte storage behind the bus: a zero-initialised, contiguous
//! region with unaligned little-endian typed access at byte offsets.
//!
//! The buffer enforces nothing but bounds; alignment and region policy
//! belong to the bus layer.

use vstd::assert_seqs_equal;
use vstd::bytes::{
    spec_u16_from_le_bytes, spec_u16_to_le_bytes, spec_u32_from_le_bytes, spec_u32_to_le_bytes,
    spec_u64_from_le_bytes, spec_u64_to_le_bytes, u16_from_le_bytes, u16_to_le_bytes,
    u32_from_le_bytes, u32_to_le_bytes, u64_from_le_bytes, u64_to_le_bytes,
};
use vstd::prelude::*;
use vstd::slice::slice_subrange;

use crate::memory::splice_bytes;

verus! {

/// Owns the bytes of the RAM region. Its view is the byte sequence.
#[derive(Debug)]
pub struct MemoryBuffer {
    data: Vec<u8>,
}

impl View for MemoryBuffer {
    type V = Seq<u8>;

    closed spec fn view(&self) -> Seq<u8> {
        self.data@
    }
}

impl MemoryBuffer {
    /// A buffer of `size` zero bytes.
    pub fn new(size: usize) -> (r: MemoryBuffer)
        ensures
            r@.len() == size,
            forall|i: int| 0 <= i < size ==> r@[i] == 0u8,
    {
        let mut data: Vec<u8> = Vec::new();
        while data.len() < size
            invariant
                data@.len() <= size,
                forall|i: int| 0 <= i < data@.len() ==> data@[i] == 0u8,
            decreases size - data@.len(),
        {
            data.push(0);
        }
        MemoryBuffer { data }
    }

    /// The buffer's length in bytes.
    pub fn len(&self) -> (r: usize)
        ensures
            r == self@.len(),
    {
        self.data.len()
    }

    /// Read the byte at `offset`.
    pub fn load8(&self, offset: usize) -> (r: u8)
        requires
            offset < self@.len(),
        ensures
            r == self@[offset as int],
    {
        self.data[offset]
    }

    /// Read the little-endian 16-bit value at `offset`; any alignment.
    pub fn load16(&self, offset: usize) -> (r: u16)
        requires
            offset + 2 <= self@.len(),
        ensures
            r == spec_u16_from_le_bytes(self@.subrange(offset as int, offset + 2)),
    {
        proof {
            vstd::std_specs::vec::axiom_spec_len(&self.data);
        }
        let s = slice_subrange(self.data.as_slice(), offset, offset + 2);
        u16_from_le_bytes(s)
    }

    /// Read the little-endian 32-bit value at `offset`; any alignment.
    pub fn load32(&self, offset: usize) -> (r: u32)
        requires
            offset + 4 <= self@.len(),
        ensures
            r == spec_u32_from_le_bytes(self@.subrange(offset as int, offset + 4)),
    {
        proof {
            vstd::std_specs::vec::axiom_spec_len(&self.data);
        }
        let s = slice_subrange(self.data.as_slice(), offset, offset + 4);
        u32_from_le_bytes(s)
    }

    /// Read the little-endian 64-bit value at `offset`; any alignment.
    pub fn load64(&self, offset: usize) -> (r: u64)
        requires
            offset + 8 <= self@.len(),
        ensures
            r == spec_u64_from_le_bytes(self@.subrange(offset as int, offset + 8)),
    {
        proof {
            vstd::std_specs::vec::axiom_spec_len(&self.data);
        }
        let s = slice_subrange(self.data.as_slice(), offset, offset + 8);
        u64_from_le_bytes(s)
    }

    /// Write one byte at `offset`.
    pub fn store8(&mut self, offset: usize, val: u8)
        requires
            offset < old(self)@.len(),
        ensures
            final(self)@ == old(self)@.update(offset as int, val),
    {
        self.data[offset] = val;
    }

    /// Write `val` at `offset` as two little-endian bytes.
    pub fn store16(&mut self, offset: usize, val: u16)
        requires
            offset + 2 <= old(self)@.len(),
        ensures
            final(self)@ == splice_bytes(old(self)@, offset as int, spec_u16_to_le_bytes(val)),
    {
        proof {
            vstd::std_specs::vec::axiom_spec_len(&self.data);
        }
        let bytes = u16_to_le_bytes(val);
        self.data[offset] = bytes[0];
        self.data[offset + 1] = bytes[1];
        proof {
            assert_seqs_equal!(
                self.data@ == splice_bytes(old(self)@, offset as int, spec_u16_to_le_bytes(val))
            );
        }
    }

    /// Write `val` at `offset` as four little-endian bytes.
    pub fn store32(&mut self, offset: usize, val: u32)
        requires
            offset + 4 <= old(self)@.len(),
        ensures
            final(self)@ == splice_bytes(old(self)@, offset as int, spec_u32_to_le_bytes(val)),
    {
        proof {
            vstd::std_specs::vec::axiom_spec_len(&self.data);
        }
        let bytes = u32_to_le_bytes(val);
        self.data[offset] = bytes[0];
        self.data[offset + 1] = bytes[1];
        self.data[offset + 2] = bytes[2];
        self.data[offset + 3] = bytes[3];
        proof {
            assert_seqs_equal!(
                self.data@ == splice_bytes(old(self)@, offset as int, spec_u32_to_le_bytes(val))
            );
        }
    }

    /// Write `val` at `offset` as eight little-endian bytes.
    pub fn store64(&mut self, offset: usize, val: u64)
        requires
            offset + 8 <= old(self)@.len(),
        ensures
            final(self)@ == splice_bytes(old(self)@, offset as int, spec_u64_to_le_bytes(val)),
    {
        proof {
            vstd::std_specs::vec::axiom_spec_len(&self.data);
        }
        let bytes = u64_to_le_bytes(val);
        self.data[offset] = bytes[0];
        self.data[offset + 1] = bytes[1];
        self.data[offset + 2] = bytes[2];
        self.data[offset + 3] = bytes[3];
        self.data[offset + 4] = bytes[4];
        self.data[offset + 5] = bytes[5];
        self.data[offset + 6] = bytes[6];
        self.data[offset + 7] = bytes[7];
        proof {
            assert_seqs_equal!(
                self.data@ == splice_bytes(old(self)@, offset as int, spec_u64_to_le_bytes(val))
            );
        }
    }
}

} // verus!
