use crate::layout::{be16, be32, be48, fits};
use vstd::prelude::*;

verus! {

/// A read-only window over a frame. Each read checks the requested range
/// against the end of the frame before it touches a byte.
pub struct BoundedView<'a> {
    bytes: &'a [u8],
}

impl<'a> View for BoundedView<'a> {
    type V = Seq<u8>;

    closed spec fn view(&self) -> Seq<u8> {
        self.bytes@
    }
}

impl<'a> BoundedView<'a> {
    pub fn new(bytes: &'a [u8]) -> (r: BoundedView<'a>)
        ensures
            r@ == bytes@,
    {
        BoundedView { bytes }
    }

    /// Number of bytes in the frame.
    pub fn len(&self) -> (r: usize)
        ensures
            r == self@.len(),
    {
        self.bytes.len()
    }

    /// Whether `size` bytes starting at `offset` lie within the frame.
    pub fn fits(&self, offset: usize, size: usize) -> (r: bool)
        ensures
            r == fits(self@.len() as int, offset as int, size as int),
            self@.len() <= usize::MAX,
    {
        offset <= self.bytes.len() && size <= self.bytes.len() - offset
    }

    /// The byte at `offset`, if it lies within the frame.
    pub fn read_u8(&self, offset: usize) -> (r: Option<u8>)
        ensures
            r is Some <==> fits(self@.len() as int, offset as int, 1),
            r is Some ==> r->0 == self@[offset as int],
    {
        if self.fits(offset, 1) {
            Some(self.bytes[offset])
        } else {
            None
        }
    }

    /// The big-endian 16-bit integer at `offset`, if both bytes lie within
    /// the frame.
    pub fn read_be16(&self, offset: usize) -> (r: Option<u16>)
        ensures
            r is Some <==> fits(self@.len() as int, offset as int, 2),
            r is Some ==> r->0 == be16(self@, offset as int),
    {
        if self.fits(offset, 2) {
            let hi = self.bytes[offset] as u16;
            let lo = self.bytes[offset + 1] as u16;
            Some(hi * 0x100 + lo)
        } else {
            None
        }
    }

    /// The big-endian 32-bit integer at `offset`, if all four bytes lie
    /// within the frame.
    pub fn read_be32(&self, offset: usize) -> (r: Option<u32>)
        ensures
            r is Some <==> fits(self@.len() as int, offset as int, 4),
            r is Some ==> r->0 == be32(self@, offset as int),
    {
        let n = self.bytes.len();
        if self.fits(offset, 4) {
            assert(offset + 2 <= n);
            let hi = self.read_be16(offset).unwrap() as u32;
            let lo = self.read_be16(offset + 2).unwrap() as u32;
            Some(hi * 0x1_0000 + lo)
        } else {
            None
        }
    }

    /// The six bytes at `offset` as a big-endian 48-bit integer, if they
    /// all lie within the frame.
    pub fn read_be48(&self, offset: usize) -> (r: Option<u64>)
        ensures
            r is Some <==> fits(self@.len() as int, offset as int, 6),
            r is Some ==> r->0 == be48(self@, offset as int),
    {
        let n = self.bytes.len();
        if self.fits(offset, 6) {
            assert(offset + 2 <= n);
            let hi = self.read_be16(offset).unwrap() as u64;
            let lo = self.read_be32(offset + 2).unwrap() as u64;
            Some(hi * 0x1_0000_0000 + lo)
        } else {
            None
        }
    }

    /// The `size` bytes starting at `offset`, if they all lie within the
    /// frame.
    pub fn read_bytes(&self, offset: usize, size: usize) -> (r: Option<Vec<u8>>)
        ensures
            r is Some <==> fits(self@.len() as int, offset as int, size as int),
            r is Some ==> r->0@ == self@.subrange(offset as int, offset + size),
    {
        let n = self.bytes.len();
        if !self.fits(offset, size) {
            return None;
        }
        let mut out: Vec<u8> = Vec::with_capacity(size);
        let mut i: usize = 0;
        while i < size
            invariant
                i <= size,
                offset + size <= n,
                n == self@.len(),
                out@ == self@.subrange(offset as int, offset + i),
            decreases size - i,
        {
            out.push(self.bytes[offset + i]);
            i += 1;
            assert(out@ =~= self@.subrange(offset as int, offset + i));
        }
        Some(out)
    }
}

} // verus!
