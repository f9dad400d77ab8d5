use vstd::prelude::*;

verus! {

/// Capacity in bytes of the scratch heap.
pub const HEAP_SIZE: usize = 1048576;

/// The first multiple of `align` at or after `offset`.
pub open spec fn align_up(offset: int, align: int) -> int {
    if offset % align == 0 {
        offset
    } else {
        offset + (align - offset % align)
    }
}

/// Where a request for `size` bytes aligned to `align` starts, given that
/// `used` bytes of a region of `capacity` bytes are taken; `None` when the
/// request does not fit.
pub open spec fn grant(used: int, size: int, align: int, capacity: int) -> Option<int> {
    if align_up(used, align) + size <= capacity {
        Some(align_up(used, align))
    } else {
        None
    }
}

/// A monotonic allocator over one fixed-size region. Regions are handed out
/// as offsets from the start of the region, and nothing is ever taken back.
pub struct BumpAllocator {
    offset: usize,
    capacity: usize,
}

impl BumpAllocator {
    /// Bytes handed out so far, alignment padding included.
    pub closed spec fn used(&self) -> nat {
        self.offset as nat
    }

    /// Size of the region.
    pub closed spec fn capacity(&self) -> nat {
        self.capacity as nat
    }

    pub closed spec fn wf(&self) -> bool {
        self.offset <= self.capacity
    }

    /// An allocator over a fresh heap of `HEAP_SIZE` bytes.
    pub fn new() -> (r: Self)
        ensures
            r.wf(),
            r.used() == 0,
            r.capacity() == HEAP_SIZE,
    {
        BumpAllocator { offset: 0, capacity: HEAP_SIZE }
    }

    /// Hands out `size` bytes aligned to `align`, as an offset into the heap,
    /// or `None` when the heap has no room left for them.
    pub fn bump_alloc(&mut self, size: usize, align: usize) -> (r: Option<usize>)
        requires
            old(self).wf(),
            align > 0,
        ensures
            final(self).wf(),
            final(self).capacity() == old(self).capacity(),
            r matches Some(start) ==> grant(old(self).used() as int, size as int, align as int, old(self).capacity() as int) == Some(start as int),
            r is None ==> grant(old(self).used() as int, size as int, align as int, old(self).capacity() as int) is None,
            r matches Some(start) ==> final(self).used() == start + size,
            r is None ==> final(self).used() == old(self).used(),
    {
        let rem: usize = self.offset % align;
        let pad: usize = if rem == 0 { 0 } else { align - rem };
        let start: usize = match self.offset.checked_add(pad) {
            Some(s) => s,
            None => return None,
        };
        let end: usize = match start.checked_add(size) {
            Some(e) => e,
            None => return None,
        };
        if end > self.capacity {
            return None;
        }
        self.offset = end;
        Some(start)
    }

    /// Releasing memory does nothing: a bump allocator never reuses a region.
    pub fn dealloc(&mut self, start: usize, size: usize)
        ensures
            *final(self) == *old(self),
    {
    }
}

/// A request fits exactly when the bytes already handed out plus the request
/// stay within the heap: one that ends at the last byte is granted, one that
/// goes a byte further is refused.
pub proof fn lemma_fit_at_boundary(used: nat, size: nat, capacity: nat)
    ensures
        grant(used as int, size as int, 1, capacity as int) is Some <==> used + size <= capacity,
        used + size == capacity ==> grant(used as int, size as int, 1, capacity as int) == Some(used as int),
{
}

/// Two requests granted one after the other never share a byte: the second
/// starts at or after the end of the first.
pub proof fn lemma_grants_disjoint(
    used: nat,
    size1: nat,
    align1: nat,
    size2: nat,
    align2: nat,
    capacity: nat,
)
    requires
        align1 > 0,
        align2 > 0,
        grant(used as int, size1 as int, align1 as int, capacity as int) is Some,
        grant(
            grant(used as int, size1 as int, align1 as int, capacity as int)->0 + size1,
            size2 as int,
            align2 as int,
            capacity as int,
        ) is Some,
    ensures
        grant(
            grant(used as int, size1 as int, align1 as int, capacity as int)->0 + size1,
            size2 as int,
            align2 as int,
            capacity as int,
        )->0 >= grant(used as int, size1 as int, align1 as int, capacity as int)->0 + size1,
{
}

} // verus!
