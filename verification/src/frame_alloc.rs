//! The physical-frame allocator: frames of the memory pool are handed
//! out and taken back as contiguous, power-of-two-sized blocks.
//!
//! The actual bookkeeping is done by the buddy-system allocator of the
//! `buddy_system_allocator` crate, held behind a small trusted seam.
//! Its state is modelled by the multiset of frame indices it currently
//! holds free, plus the running total of frames handed out; the verified
//! [`FrameManager`] wrapper maintains an exact free-frame count
//! against that model.

use vstd::prelude::*;
use vstd::multiset::Multiset;

verus! {

broadcast use vstd::multiset::group_multiset_axioms, vstd::multiset::group_multiset_properties;

/// The largest block the allocator can hand out, in frames.  The buddy
/// system is instantiated with order 21, so blocks go up to 2^20 frames.
pub const MAX_BLOCK_FRAMES: usize = 0x10_0000;

/// Declares `buddy_system_allocator::FrameAllocator` to the verifier;
/// values of it are opaque and are reasoned about only through
/// `free_frames` and `allocated_frames`.
#[verifier::external_type_specification]
#[verifier::external_body]
pub struct ExFrameAllocator<const ORDER: usize>(buddy_system_allocator::FrameAllocator<ORDER>);

/// The multiset of frame indices the buddy allocator currently holds
/// free.  A frame appears once while it is free and not at all while it
/// is handed out; the trusted wrappers below say how each call moves
/// frames in and out of this multiset.
pub uninterp spec fn free_frames(a: buddy_system_allocator::FrameAllocator<21>) -> Multiset<
    usize,
>;

/// The buddy allocator's running count of frames currently handed out
/// (its `allocated` statistic).  Deallocation subtracts from this
/// counter with unchecked arithmetic, so the wrappers track it to rule
/// out underflow and overflow inside the outside crate.
pub uninterp spec fn allocated_frames(a: buddy_system_allocator::FrameAllocator<21>) -> usize;

/// The multiset of frame indices `start <= i < end`.
pub open spec fn frame_range(start: int, end: int) -> Multiset<usize>
    decreases end - start,
{
    if start >= end {
        Multiset::empty()
    } else {
        frame_range(start, end - 1).insert((end - 1) as usize)
    }
}

/// Each index in `[start, end)` appears exactly once in
/// `frame_range(start, end)`, and nothing else appears at all.
pub proof fn lemma_frame_range_count(start: int, end: int, v: usize)
    requires
        0 <= start,
        end <= usize::MAX + 1,
    ensures
        frame_range(start, end).count(v) == if start <= v < end {
            1int
        } else {
            0int
        },
    decreases end - start,
{
    if start < end {
        lemma_frame_range_count(start, end - 1, v);
    }
}

/// `frame_range(start, end)` holds exactly `end - start` frames.
pub proof fn lemma_frame_range_len(start: int, end: int)
    requires
        0 <= start <= end,
        end <= usize::MAX + 1,
    ensures
        frame_range(start, end).len() == end - start,
    decreases end - start,
{
    if start < end {
        lemma_frame_range_len(start, end - 1);
    }
}

/// The smallest power of two that is at least `max(n, 1)`; the value of
/// `usize::next_power_of_two` on `n`.
pub open spec fn next_pow2(n: nat) -> nat
    decreases n,
{
    if n <= 1 {
        1
    } else {
        2 * next_pow2((n + 1) / 2)
    }
}

/// `next_pow2` never moves below its argument.
pub proof fn lemma_next_pow2_ge(n: nat)
    ensures
        next_pow2(n) >= n,
        next_pow2(n) >= 1,
    decreases n,
{
    if n > 1 {
        lemma_next_pow2_ge((n + 1) / 2);
    }
}

/// `next_pow2` is monotonic.
pub proof fn lemma_next_pow2_le(n: nat, m: nat)
    requires
        n <= m,
    ensures
        next_pow2(n) <= next_pow2(m),
    decreases m,
{
    if n > 1 {
        lemma_next_pow2_le((n + 1) / 2, (m + 1) / 2);
    } else {
        lemma_next_pow2_ge(m);
        if m > 1 {
            lemma_next_pow2_le(1, (m + 1) / 2);
        }
    }
}

/// Doubling the argument doubles the result: the recursion steps down
/// by exactly one halving.
pub proof fn lemma_next_pow2_double(n: nat)
    requires
        n >= 1,
    ensures
        next_pow2(2 * n) == 2 * next_pow2(n),
{
    assert((2 * n + 1) / 2 == n);
}

/// A block-sized request rounds to itself: `next_pow2` is idempotent at
/// the allocator's largest block size.
pub proof fn lemma_next_pow2_max_block()
    ensures
        next_pow2(MAX_BLOCK_FRAMES as nat) == MAX_BLOCK_FRAMES,
{
    lemma_next_pow2_double(0x1);
    lemma_next_pow2_double(0x2);
    lemma_next_pow2_double(0x4);
    lemma_next_pow2_double(0x8);
    lemma_next_pow2_double(0x10);
    lemma_next_pow2_double(0x20);
    lemma_next_pow2_double(0x40);
    lemma_next_pow2_double(0x80);
    lemma_next_pow2_double(0x100);
    lemma_next_pow2_double(0x200);
    lemma_next_pow2_double(0x400);
    lemma_next_pow2_double(0x800);
    lemma_next_pow2_double(0x1000);
    lemma_next_pow2_double(0x2000);
    lemma_next_pow2_double(0x4000);
    lemma_next_pow2_double(0x8000);
    lemma_next_pow2_double(0x1_0000);
    lemma_next_pow2_double(0x2_0000);
    lemma_next_pow2_double(0x4_0000);
    lemma_next_pow2_double(0x8_0000);
}

/// The rounded block sizes of the small requests the self-tests make.
pub proof fn lemma_next_pow2_small_values()
    ensures
        next_pow2(1) == 1,
        next_pow2(2) == 2,
        next_pow2(4) == 4,
        next_pow2(7) == 8,
        next_pow2(8) == 8,
        next_pow2(100) == 128,
{
    assert(next_pow2(1) == 1);
    assert(next_pow2(2) == 2);
    assert(next_pow2(4) == 4);
    assert(next_pow2(7) == 8);
    assert(next_pow2(8) == 8);
    assert(next_pow2(13) == 16);
    assert(next_pow2(25) == 32);
    assert(next_pow2(50) == 64);
    assert(next_pow2(100) == 128);
}

/// A block taken out of a duplicate-free multiset is disjoint from what
/// remains: if `cur` and `block` together fit under `orig` and `orig`
/// holds nothing twice, then no element is in both.
pub proof fn lemma_block_disjoint(
    orig: Multiset<usize>,
    cur: Multiset<usize>,
    block: Multiset<usize>,
)
    requires
        forall|v: usize| #[trigger] orig.count(v) <= 1,
        forall|v: usize| #[trigger] cur.count(v) + block.count(v) <= orig.count(v),
    ensures
        block.is_disjoint_from(cur),
{
}

/// Relies on `usize::next_power_of_two` of std: it returns the smallest
/// power of two greater than or equal to its argument (and 1 for 0),
/// and panics when that power does not fit in the type.
pub assume_specification[ usize::next_power_of_two ](n: usize) -> (r: usize)
    requires
        next_pow2(n as nat) <= usize::MAX,
    ensures
        r == next_pow2(n as nat),
;

/// Relies on `buddy_system_allocator::FrameAllocator::new`: a fresh
/// allocator manages no frames and has handed none out.
#[verifier::external_body]
fn buddy_new() -> (r: buddy_system_allocator::FrameAllocator<21>)
    ensures
        free_frames(r) == Multiset::<usize>::empty(),
        allocated_frames(r) == 0,
{
    buddy_system_allocator::FrameAllocator::new()
}

/// Relies on `buddy_system_allocator::FrameAllocator::add_frame`: it
/// registers exactly the frames `[start, end)` as free and does not
/// touch the allocated statistic.  The range must be fresh — adding a
/// frame the allocator already holds would be absorbed by the
/// underlying block sets — and the allocator's internal `total`
/// statistic, which equals the free frames plus the allocated count,
/// must not overflow when the range is added.
#[verifier::external_body]
fn buddy_add_frame(a: &mut buddy_system_allocator::FrameAllocator<21>, start: usize, end: usize)
    requires
        start <= end,
        frame_range(start as int, end as int).is_disjoint_from(free_frames(*old(a))),
        free_frames(*old(a)).len() + allocated_frames(*old(a)) + (end - start) <= usize::MAX,
    ensures
        free_frames(*final(a)) == free_frames(*old(a)).add(
            frame_range(start as int, end as int),
        ),
        allocated_frames(*final(a)) == allocated_frames(*old(a)),
{
    a.add_frame(start, end);
}

/// Relies on `buddy_system_allocator::FrameAllocator::alloc`: it rounds
/// the request up to the next power of two, takes one contiguous block
/// of that many frames out of the free frames — aligned to the block
/// size, as the crate documents — or returns `None` and changes
/// nothing.  For a multi-frame block nothing is promised about when one
/// is found: that depends on how the free frames are fragmented into
/// buddy blocks.  A one-frame request, however, fails only when no
/// frame at all is free: any non-empty size class is split down to
/// class zero.
#[verifier::external_body]
fn buddy_alloc(a: &mut buddy_system_allocator::FrameAllocator<21>, count: usize) -> (r: Option<
    usize,
>)
    requires
        1 <= count <= MAX_BLOCK_FRAMES,
        allocated_frames(*old(a)) + MAX_BLOCK_FRAMES <= usize::MAX,
    ensures
        match r {
            Some(f) => {
                &&& f + next_pow2(count as nat) <= usize::MAX
                &&& f as int % next_pow2(count as nat) as int == 0
                &&& free_frames(*old(a)) == free_frames(*final(a)).add(
                    frame_range(f as int, f + next_pow2(count as nat)),
                )
                &&& allocated_frames(*final(a)) == allocated_frames(*old(a)) + next_pow2(
                    count as nat,
                )
            },
            None => {
                &&& free_frames(*final(a)) == free_frames(*old(a))
                &&& allocated_frames(*final(a)) == allocated_frames(*old(a))
                &&& next_pow2(count as nat) == 1 ==> free_frames(*old(a)).len() == 0
            },
        },
{
    a.alloc(count)
}

/// Relies on `buddy_system_allocator::FrameAllocator::alloc_aligned`:
/// like `alloc`, but the block size is the larger of the rounded-up
/// request and the requested alignment — so it too fails on a one-frame
/// block only when no frame at all is free.
#[verifier::external_body]
fn buddy_alloc_aligned(
    a: &mut buddy_system_allocator::FrameAllocator<21>,
    count: usize,
    align: usize,
) -> (r: Option<usize>)
    requires
        1 <= count <= MAX_BLOCK_FRAMES,
        1 <= align <= MAX_BLOCK_FRAMES,
        next_pow2(align as nat) == align,
        allocated_frames(*old(a)) + MAX_BLOCK_FRAMES <= usize::MAX,
    ensures
        match r {
            Some(f) => {
                &&& f + block_size_aligned(count as nat, align as nat) <= usize::MAX
                &&& f as int % block_size_aligned(count as nat, align as nat) as int == 0
                &&& free_frames(*old(a)) == free_frames(*final(a)).add(
                    frame_range(f as int, f + block_size_aligned(count as nat, align as nat)),
                )
                &&& allocated_frames(*final(a)) == allocated_frames(*old(a)) + block_size_aligned(
                    count as nat,
                    align as nat,
                )
            },
            None => {
                &&& free_frames(*final(a)) == free_frames(*old(a))
                &&& allocated_frames(*final(a)) == allocated_frames(*old(a))
                &&& block_size_aligned(count as nat, align as nat) == 1 ==> free_frames(
                    *old(a),
                ).len() == 0
            },
        },
{
    match core::alloc::Layout::from_size_align(count, align) {
        Ok(layout) => a.alloc_aligned(layout),
        Err(_) => None,
    }
}

/// The block size `alloc_aligned` reserves for a request of `count`
/// frames at alignment `align`.
pub open spec fn block_size_aligned(count: nat, align: nat) -> nat {
    if next_pow2(count) >= align {
        next_pow2(count)
    } else {
        align
    }
}

/// Relies on `buddy_system_allocator::FrameAllocator::dealloc`: it
/// returns exactly the block `[start, start + next_pow2(count))` to the
/// free frames and subtracts that size from the allocated statistic.
/// The range must be exactly one that `alloc` returned and is still
/// outstanding: freeing frames the allocator already holds would be
/// absorbed by the underlying block sets, and the unchecked statistic
/// must not underflow.
#[verifier::external_body]
fn buddy_dealloc(a: &mut buddy_system_allocator::FrameAllocator<21>, start: usize, count: usize)
    requires
        1 <= count <= MAX_BLOCK_FRAMES,
        start + next_pow2(count as nat) <= usize::MAX,
        start as int % next_pow2(count as nat) as int == 0,
        frame_range(start as int, start + next_pow2(count as nat)).is_disjoint_from(
            free_frames(*old(a)),
        ),
        next_pow2(count as nat) <= allocated_frames(*old(a)),
    ensures
        free_frames(*final(a)) == free_frames(*old(a)).add(
            frame_range(start as int, start + next_pow2(count as nat)),
        ),
        allocated_frames(*final(a)) == allocated_frames(*old(a)) - next_pow2(count as nat),
{
    a.dealloc(start, count);
}

/// The frame allocator the monitor owns: the buddy system plus an exact
/// count of the frames it currently holds free.
pub struct FrameManager {
    buddy: buddy_system_allocator::FrameAllocator<21>,
    free_count: usize,
}

impl FrameManager {
    /// The multiset of frame indices currently free.
    pub closed spec fn frames(self) -> Multiset<usize> {
        free_frames(self.buddy)
    }

    /// The number of frames currently handed out (in power-of-two
    /// blocks).
    pub closed spec fn allocated(self) -> usize {
        allocated_frames(self.buddy)
    }

    /// The accounting invariant: the stored count is the size of the
    /// free multiset.
    pub closed spec fn wf(self) -> bool {
        self.free_count == self.frames().len()
    }

    /// An allocator that manages no frames yet.
    pub fn new() -> (r: FrameManager)
        ensures
            r.wf(),
            r.frames() == Multiset::<usize>::empty(),
            r.allocated() == 0,
    {
        FrameManager { buddy: buddy_new(), free_count: 0 }
    }

    /// The number of frames currently free.
    pub fn free_frame_count(&self) -> (r: usize)
        requires
            self.wf(),
        ensures
            r == self.frames().len(),
    {
        self.free_count
    }

    /// Register the fresh frame range `[start, end)` as free.
    pub fn add_frame(&mut self, start: usize, end: usize)
        requires
            old(self).wf(),
            start <= end,
            frame_range(start as int, end as int).is_disjoint_from(old(self).frames()),
            old(self).frames().len() + old(self).allocated() + (end - start) <= usize::MAX,
        ensures
            final(self).wf(),
            final(self).frames() == old(self).frames().add(frame_range(start as int, end as int)),
            final(self).allocated() == old(self).allocated(),
    {
        proof {
            lemma_frame_range_len(start as int, end as int);
        }
        buddy_add_frame(&mut self.buddy, start, end);
        self.free_count = self.free_count + (end - start);
    }

    /// Allocate a contiguous block of `next_pow2(count)` frames,
    /// returning its first frame index, or `None` — never a partial
    /// block — when no sufficiently large contiguous free block exists.
    /// A one-frame request is owed success whenever any frame is free.
    pub fn alloc_frames(&mut self, count: usize) -> (r: Option<usize>)
        requires
            old(self).wf(),
            1 <= count <= MAX_BLOCK_FRAMES,
            old(self).allocated() + MAX_BLOCK_FRAMES <= usize::MAX,
        ensures
            final(self).wf(),
            count == 1 && old(self).frames().len() >= 1 ==> r is Some,
            r matches Some(f) ==> {
                &&& f + next_pow2(count as nat) <= usize::MAX
                &&& f as int % next_pow2(count as nat) as int == 0
                &&& old(self).frames() == final(self).frames().add(
                    frame_range(f as int, f + next_pow2(count as nat)),
                )
                &&& final(self).frames().len() == old(self).frames().len() - next_pow2(
                    count as nat,
                )
                &&& final(self).allocated() == old(self).allocated() + next_pow2(count as nat)
            },
            r is None ==> final(self).frames() == old(self).frames() && final(self).allocated()
                == old(self).allocated(),
    {
        proof {
            lemma_next_pow2_ge(count as nat);
            lemma_next_pow2_le(count as nat, MAX_BLOCK_FRAMES as nat);
            lemma_next_pow2_max_block();
        }
        let size = count.next_power_of_two();
        let r = buddy_alloc(&mut self.buddy, count);
        match r {
            Some(f) => {
                proof {
                    lemma_frame_range_len(f as int, f + next_pow2(count as nat));
                }
                self.free_count = self.free_count - size;
                Some(f)
            },
            None => None,
        }
    }

    /// Allocate a block of `count` frames whose first frame is aligned
    /// to `align` frames (`align` must be a power of two); the reserved
    /// block is the larger of the rounded-up count and the alignment.
    /// A one-frame block is owed success whenever any frame is free.
    pub fn alloc_aligned(&mut self, count: usize, align: usize) -> (r: Option<usize>)
        requires
            old(self).wf(),
            1 <= count <= MAX_BLOCK_FRAMES,
            1 <= align <= MAX_BLOCK_FRAMES,
            next_pow2(align as nat) == align,
            old(self).allocated() + MAX_BLOCK_FRAMES <= usize::MAX,
        ensures
            final(self).wf(),
            block_size_aligned(count as nat, align as nat) == 1 && old(self).frames().len() >= 1
                ==> r is Some,
            r matches Some(f) ==> {
                &&& f + block_size_aligned(count as nat, align as nat) <= usize::MAX
                &&& f as int % block_size_aligned(count as nat, align as nat) as int == 0
                &&& old(self).frames() == final(self).frames().add(
                    frame_range(f as int, f + block_size_aligned(count as nat, align as nat)),
                )
                &&& final(self).frames().len() == old(self).frames().len() - block_size_aligned(
                    count as nat,
                    align as nat,
                )
                &&& final(self).allocated() == old(self).allocated() + block_size_aligned(
                    count as nat,
                    align as nat,
                )
            },
            r is None ==> final(self).frames() == old(self).frames() && final(self).allocated()
                == old(self).allocated(),
    {
        proof {
            lemma_next_pow2_ge(count as nat);
            lemma_next_pow2_le(count as nat, MAX_BLOCK_FRAMES as nat);
            lemma_next_pow2_max_block();
        }
        let size = count.next_power_of_two();
        let size = if size >= align {
            size
        } else {
            align
        };
        let r = buddy_alloc_aligned(&mut self.buddy, count, align);
        match r {
            Some(f) => {
                proof {
                    lemma_frame_range_len(
                        f as int,
                        f + block_size_aligned(count as nat, align as nat),
                    );
                }
                self.free_count = self.free_count - size;
                Some(f)
            },
            None => None,
        }
    }

    /// Return the block `[start, start + next_pow2(count))` to the
    /// allocator.  The block must be exactly one that `alloc` (or
    /// `alloc_aligned` with that block size) returned and is still
    /// outstanding: no frame of it may currently be free, and the
    /// allocator must have at least that many frames out.
    pub fn dealloc(&mut self, start: usize, count: usize)
        requires
            old(self).wf(),
            1 <= count <= MAX_BLOCK_FRAMES,
            start + next_pow2(count as nat) <= usize::MAX,
            start as int % next_pow2(count as nat) as int == 0,
            frame_range(start as int, start + next_pow2(count as nat)).is_disjoint_from(
                old(self).frames(),
            ),
            next_pow2(count as nat) <= old(self).allocated(),
            old(self).frames().len() + next_pow2(count as nat) <= usize::MAX,
        ensures
            final(self).wf(),
            final(self).frames() == old(self).frames().add(
                frame_range(start as int, start + next_pow2(count as nat)),
            ),
            final(self).frames().len() == old(self).frames().len() + next_pow2(count as nat),
            final(self).allocated() == old(self).allocated() - next_pow2(count as nat),
    {
        proof {
            lemma_next_pow2_ge(count as nat);
            lemma_next_pow2_le(count as nat, MAX_BLOCK_FRAMES as nat);
            lemma_next_pow2_max_block();
            lemma_frame_range_len(start as int, start + next_pow2(count as nat));
        }
        let size = count.next_power_of_two();
        buddy_dealloc(&mut self.buddy, start, count);
        self.free_count = self.free_count + size;
    }
}

/// Law: allocating a block and then immediately deallocating it at the
/// returned index with the same count restores the allocator's free
/// frames — and so its free-frame count — exactly.  The hypotheses are
/// precisely what `alloc` ensures about a successful call and what
/// `dealloc` ensures about returning that same block.
pub proof fn lemma_alloc_dealloc_restores(
    before: Multiset<usize>,
    mid: Multiset<usize>,
    after: Multiset<usize>,
    f: usize,
    count: usize,
)
    requires
        before == mid.add(frame_range(f as int, f + next_pow2(count as nat))),
        after == mid.add(frame_range(f as int, f + next_pow2(count as nat))),
    ensures
        after == before,
        after.len() == before.len(),
{
}

} // verus!
