//! A protection-flagged window onto the bytes of a process image.
use vstd::prelude::*;

verus! {

/// Protection flags that make a page readable, writable and executable.
pub const PAGE_EXECUTE_READWRITE: u32 = 0x40;

/// The bytes of `s` with `data` written over them from `offset` on.
pub open spec fn splice(s: Seq<u8>, offset: int, data: Seq<u8>) -> Seq<u8> {
    s.subrange(0, offset) + data + s.subrange(offset + data.len(), s.len() as int)
}

/// A window onto memory: its bytes, and the protection flags it currently has.
pub struct MemoryImage {
    bytes: Vec<u8>,
    protection: u32,
}

impl MemoryImage {
    /// The bytes of the window.
    pub closed spec fn contents(&self) -> Seq<u8> {
        self.bytes@
    }

    /// The protection flags the window currently has.
    pub closed spec fn flags(&self) -> u32 {
        self.protection
    }

    pub fn new(bytes: Vec<u8>, protection: u32) -> (r: MemoryImage)
        ensures
            r.contents() == bytes@,
            r.flags() == protection,
    {
        MemoryImage { bytes, protection }
    }

    pub fn bytes(&self) -> (r: &Vec<u8>)
        ensures
            r@ == self.contents(),
    {
        &self.bytes
    }

    pub fn protection(&self) -> (r: u32)
        ensures
            r == self.flags(),
    {
        self.protection
    }

    pub fn len(&self) -> (r: usize)
        ensures
            r == self.contents().len(),
    {
        self.bytes.len()
    }

    /// Copies `len` bytes from `offset` on; `None` where they are not all
    /// inside the window.
    pub fn read(&self, offset: usize, len: usize) -> (r: Option<Vec<u8>>)
        ensures
            r is Some <==> offset + len <= self.contents().len(),
            r is Some ==> r.unwrap()@ == self.contents().subrange(
                offset as int,
                offset + len,
            ),
    {
        if offset > self.bytes.len() || len > self.bytes.len() - offset {
            return None;
        }
        let n: usize = self.bytes.len();
        let mut out: Vec<u8> = Vec::with_capacity(len);
        let mut j: usize = 0;
        while j < len
            invariant
                n == self.bytes@.len(),
                offset + len <= self.bytes@.len(),
                j <= len,
                out@ == self.bytes@.subrange(offset as int, offset + j),
            decreases len - j,
        {
            out.push(self.bytes[offset + j]);
            j += 1;
            assert(out@ =~= self.bytes@.subrange(offset as int, offset + j));
        }
        Some(out)
    }

    /// Sets the protection flags and returns the ones the window had before.
    pub fn protect(&mut self, flags: u32) -> (previous: u32)
        ensures
            previous == old(self).flags(),
            final(self).flags() == flags,
            final(self).contents() == old(self).contents(),
    {
        let previous = self.protection;
        self.protection = flags;
        previous
    }

    /// Overwrites bytes in place; only a window made writable may be written.
    pub fn write(&mut self, offset: usize, data: &[u8])
        requires
            old(self).flags() == PAGE_EXECUTE_READWRITE,
            offset + data@.len() <= old(self).contents().len(),
        ensures
            final(self).contents() == splice(old(self).contents(), offset as int, data@),
            final(self).flags() == old(self).flags(),
    {
        let ghost before = self.bytes@;
        let n: usize = self.bytes.len();
        let mut j: usize = 0;
        while j < data.len()
            invariant
                n == before.len(),
                offset + data@.len() <= before.len(),
                j <= data@.len(),
                self.bytes@.len() == before.len(),
                self.protection == old(self).flags(),
                forall|k: int|
                    0 <= k < before.len() ==> #[trigger] self.bytes@[k] == if offset <= k < offset
                        + j {
                        data@[k - offset]
                    } else {
                        before[k]
                    },
            decreases data@.len() - j,
        {
            self.bytes.set(offset + j, data[j]);
            j += 1;
        }
        assert(self.bytes@ =~= splice(before, offset as int, data@));
    }
}

} // verus!
