//! A byte-level model of the shared memory region, sized in whole pages,
//! with the host calls' boundary policy applied to every access.
use vstd::prelude::*;

use crate::host::{in_region, HostError, Patch};
use crate::PAGE_SIZE;

verus! {

/// The shared region: a fixed number of bytes that every context reads and
/// writes. Its size never changes after it is made.
pub struct Region {
    bytes: Vec<u8>,
}

impl View for Region {
    type V = Seq<u8>;

    closed spec fn view(&self) -> Seq<u8> {
        self.bytes@
    }
}

/// `s` with the bytes of `b` stored from offset `start` on.
pub open spec fn written(s: Seq<u8>, start: int, b: Seq<u8>) -> Seq<u8> {
    Seq::new(s.len(), |i: int| if start <= i < start + b.len() { b[i - start] } else { s[i] })
}

/// A region of `pages` zeroed pages.
pub open spec fn zeroed(pages: u32) -> Seq<u8> {
    Seq::new((pages * PAGE_SIZE) as nat, |i: int| 0u8)
}

impl Region {
    /// A zeroed region of `pages` pages of `PAGE_SIZE` bytes each.
    pub fn new(pages: u32) -> (r: Region)
        requires
            pages * PAGE_SIZE <= usize::MAX,
        ensures
            r@ == zeroed(pages),
            r@.len() == pages * PAGE_SIZE,
    {
        let n: usize = (pages as u64 * PAGE_SIZE) as usize;
        let mut bytes: Vec<u8> = Vec::with_capacity(n);
        let mut i: usize = 0;
        while i < n
            invariant
                n == pages * PAGE_SIZE,
                i <= n,
                bytes@ == Seq::new(i as nat, |j: int| 0u8),
            decreases n - i,
        {
            bytes.push(0u8);
            i = i + 1;
            assert(bytes@ =~= Seq::new(i as nat, |j: int| 0u8));
        }
        assert(bytes@ =~= zeroed(pages));
        Region { bytes }
    }

    /// Size of the region in bytes.
    pub fn len(&self) -> (r: usize)
        ensures
            r == self@.len(),
    {
        self.bytes.len()
    }

    /// The `len` bytes at `ptr`; `OutOfBounds` when the range leaves the
    /// region, which is never read past its end.
    pub fn read(&self, ptr: u32, len: u32) -> (r: Result<Vec<u8>, HostError>)
        ensures
            r is Ok <==> in_region(self@.len() as int, ptr as int, len as int),
            r is Ok ==> r->Ok_0@ == self@.subrange(ptr as int, ptr + len),
            r is Err ==> r matches Err(HostError::OutOfBounds),
    {
        if ptr as u64 + len as u64 > self.bytes.len() as u64 {
            return Err(HostError::OutOfBounds);
        }
        let start: usize = ptr as usize;
        let end: usize = (ptr as u64 + len as u64) as usize;
        let mut out: Vec<u8> = Vec::with_capacity(len as usize);
        let mut i: usize = start;
        while i < end
            invariant
                start <= i <= end,
                end <= self@.len(),
                start == ptr,
                end == ptr + len,
                out@ == self@.subrange(start as int, i as int),
            decreases end - i,
        {
            out.push(self.bytes[i]);
            i = i + 1;
            assert(out@ =~= self@.subrange(start as int, i as int));
        }
        Ok(out)
    }

    /// Stores `bytes` from offset `start` on; `OutOfBounds`, with the region
    /// unchanged, when they would not fit.
    pub fn write(&mut self, start: usize, bytes: &Vec<u8>) -> (r: Result<(), HostError>)
        ensures
            r is Ok <==> in_region(old(self)@.len() as int, start as int, bytes@.len() as int),
            r is Ok ==> final(self)@ == written(old(self)@, start as int, bytes@),
            r is Err ==> (r matches Err(HostError::OutOfBounds)),
            r is Err ==> final(self)@ == old(self)@,
    {
        if bytes.len() > self.bytes.len() || start > self.bytes.len() - bytes.len() {
            return Err(HostError::OutOfBounds);
        }
        let ghost before = self@;
        let mut i: usize = 0;
        while i < bytes.len()
            invariant
                start + bytes@.len() <= before.len(),
                before.len() == self.bytes.len(),
                i <= bytes@.len(),
                self@.len() == before.len(),
                forall|k: int|
                    0 <= k < self@.len() ==> #[trigger] self@[k] == (if start <= k < start + i {
                        bytes@[k - start]
                    } else {
                        before[k]
                    }),
            decreases bytes@.len() - i,
        {
            self.bytes.set(start + i, bytes[i]);
            i = i + 1;
        }
        assert(self@ =~= written(before, start as int, bytes@));
        Ok(())
    }

    /// Stores a patch computed by a host call.
    pub fn apply(&mut self, patch: &Patch) -> (r: Result<(), HostError>)
        ensures
            r is Ok <==> in_region(
                old(self)@.len() as int,
                patch.start as int,
                patch.bytes@.len() as int,
            ),
            r is Ok ==> final(self)@ == written(old(self)@, patch.start as int, patch.bytes@),
            r is Err ==> final(self)@ == old(self)@,
    {
        self.write(patch.start, &patch.bytes)
    }
}

/// A write into the region is seen in full by any later read of the same
/// range, and leaves the region's size as it was.
pub proof fn lemma_write_then_read(s: Seq<u8>, start: int, b: Seq<u8>)
    requires
        0 <= start,
        start + b.len() <= s.len(),
    ensures
        written(s, start, b).len() == s.len(),
        written(s, start, b).subrange(start, start + b.len()) == b,
        forall|i: int|
            0 <= i < s.len() && !(start <= i < start + b.len()) ==> #[trigger] written(
                s,
                start,
                b,
            )[i] == s[i],
{
    assert(written(s, start, b).subrange(start, start + b.len()) =~= b);
}

/// A region made of `pages` pages holds exactly `pages * PAGE_SIZE` bytes.
pub proof fn lemma_region_size(pages: u32)
    ensures
        zeroed(pages).len() == pages * 65536,
{
}

} // verus!
