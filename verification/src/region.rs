//! A bounds-checked view of an externally produced byte range.
//!
//! A `MemoryRegion` owns a copy of the bytes of either a live shared-memory
//! segment or a loaded recording file, together with an open/closed flag.
//! The caller that mapped or read the underlying storage closes the region
//! when that storage goes away; decode operations check the flag and fail
//! with `ClosedRegion` instead of touching stale data.

use vstd::prelude::*;

verus! {

/// Little-endian 32-bit value read from `b` at byte offset `i`.
pub open spec fn le_u32_at(b: Seq<u8>, i: int) -> int {
    b[i] + 0x100 * b[i + 1] + 0x1_0000 * b[i + 2] + 0x100_0000 * b[i + 3]
}

/// Little-endian 64-bit value read from `b` at byte offset `i`.
pub open spec fn le_u64_at(b: Seq<u8>, i: int) -> int {
    le_u32_at(b, i) + 0x1_0000_0000 * le_u32_at(b, i + 4)
}

/// A fixed-length readable byte range with an explicit open/closed state.
pub struct MemoryRegion {
    data: Vec<u8>,
    open: bool,
}

impl MemoryRegion {
    /// The bytes the region holds.
    pub closed spec fn bytes(&self) -> Seq<u8> {
        self.data@
    }

    /// Whether the region may still be read.
    pub closed spec fn is_open(&self) -> bool {
        self.open
    }

    /// Wrap caller-supplied bytes as an open region.
    pub fn from_bytes(data: Vec<u8>) -> (r: MemoryRegion)
        ensures
            r.bytes() == data@,
            r.is_open(),
    {
        MemoryRegion { data, open: true }
    }

    /// Mark the region closed; every later decode operation on it fails
    /// with `ClosedRegion`.
    pub fn close(&mut self)
        ensures
            final(self).bytes() == old(self).bytes(),
            !final(self).is_open(),
    {
        self.open = false;
    }

    /// Report whether the region is still open.
    pub fn check_open(&self) -> (r: bool)
        ensures
            r == self.is_open(),
    {
        self.open
    }

    /// Number of bytes in the region.
    pub fn len(&self) -> (r: usize)
        ensures
            r == self.bytes().len(),
    {
        self.data.len()
    }

    /// Read a little-endian 32-bit value.
    pub fn read_u32_le(&self, off: usize) -> (r: u32)
        requires
            off + 4 <= self.bytes().len(),
        ensures
            r == le_u32_at(self.bytes(), off as int),
    {
        let n = self.data.len();
        let b0 = self.data[off] as u32;
        let b1 = self.data[off + 1] as u32;
        let b2 = self.data[off + 2] as u32;
        let b3 = self.data[off + 3] as u32;
        b0 + 0x100 * b1 + 0x1_0000 * b2 + 0x100_0000 * b3
    }

    /// Copy `len` bytes starting at `off` into an owned buffer.
    pub fn copy_range(&self, off: usize, len: usize) -> (r: Vec<u8>)
        requires
            off + len <= self.bytes().len(),
        ensures
            r@ == self.bytes().subrange(off as int, off + len),
    {
        let n = self.data.len();
        let mut out: Vec<u8> = Vec::new();
        let mut i: usize = 0;
        while i < len
            invariant
                i <= len,
                off + len <= n == self.bytes().len(),
                out@ == self.bytes().subrange(off as int, off + i),
            decreases len - i,
        {
            out.push(self.data[off + i]);
            assert(out@ =~= self.bytes().subrange(off as int, off + i + 1));
            i = i + 1;
        }
        out
    }
}

} // verus!
