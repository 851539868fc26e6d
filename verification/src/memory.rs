//! The monitor's physical-memory manager: a pool of 2 MiB frames, the
//! frame allocator that owns them, and the metadata heap that grows by
//! pulling whole frames from that allocator ("rescue").
//!
//! The pool geometry is set exactly once at initialization and is
//! immutable afterwards.  Frame 0 backs the initial heap; every other
//! frame starts out free.  The manager keeps an exact ledger: every
//! frame is either free, handed out to a caller, or backing the heap.

use vstd::prelude::*;
use vstd::multiset::Multiset;
use vstd::arithmetic::div_mod::{
    lemma_add_mod_noop,
    lemma_div_by_multiple,
    lemma_fundamental_div_mod,
    lemma_mod_bound,
    lemma_mod_multiples_basic,
};
use vstd::arithmetic::mul::{
    lemma_mul_inequality,
    lemma_mul_is_commutative,
    lemma_mul_is_distributive_add_other_way,
};
use crate::enclave_id::EnclaveId;
use crate::frame_alloc::{
    FrameManager,
    MAX_BLOCK_FRAMES,
    frame_range,
    lemma_block_disjoint,
    lemma_frame_range_count,
    lemma_frame_range_len,
    lemma_next_pow2_ge,
    lemma_next_pow2_le,
    lemma_next_pow2_max_block,
    lemma_next_pow2_small_values,
    next_pow2,
};
use crate::sbi::{SbiRet, RET_SUCCESS, RET_ERR_DENIED, RET_ERR_FAILED, RET_ERR_INVALID_PARAM, RET_ERR_NOT_SUPPORTED};

verus! {

broadcast use vstd::multiset::group_multiset_axioms;

/// The fixed size of one physical frame: 2 MiB.
pub const FRAME_SIZE: usize = 0x20_0000;

/// Acceptable pool geometry: a nonzero start, a size that is a proper
/// multiple of the frame size larger than one frame, and an end that
/// stays inside the address space.
pub open spec fn spec_valid_pool(pool_start: usize, pool_size: usize) -> bool {
    &&& pool_start != 0
    &&& pool_size > FRAME_SIZE
    &&& pool_size % FRAME_SIZE == 0
    &&& pool_start + pool_size <= usize::MAX
}

/// `addr` rounded up to the next multiple of `align`.
pub open spec fn spec_align_up(addr: int, align: int) -> int
    recommends
        align >= 1,
{
    ((addr + align - 1) / align) * align
}

/// `addr` rounded down to a multiple of `align`.
pub open spec fn spec_align_down(addr: int, align: int) -> int
    recommends
        align >= 1,
{
    (addr / align) * align
}

/// Round `addr` up to the next multiple of `align`.
pub fn align_up(addr: usize, align: usize) -> (r: usize)
    requires
        align >= 1,
        addr + align - 1 <= usize::MAX,
    ensures
        r == spec_align_up(addr as int, align as int),
        r % align == 0,
        addr <= r < addr + align,
{
    proof {
        let x = addr + align - 1;
        lemma_fundamental_div_mod(x, align as int);
        lemma_mod_bound(x, align as int);
        lemma_mod_multiples_basic(x / (align as int), align as int);
        lemma_mul_is_commutative(align as int, x / (align as int));
    }
    ((addr + (align - 1)) / align) * align
}

/// Round `addr` down to a multiple of `align`.
pub fn align_down(addr: usize, align: usize) -> (r: usize)
    requires
        align >= 1,
    ensures
        r == spec_align_down(addr as int, align as int),
        r % align == 0,
        r <= addr < r + align,
{
    proof {
        lemma_fundamental_div_mod(addr as int, align as int);
        lemma_mod_bound(addr as int, align as int);
        lemma_mod_multiples_basic(addr as int / (align as int), align as int);
        lemma_mul_is_commutative(align as int, addr as int / (align as int));
    }
    (addr / align) * align
}

/// What went wrong inside a metadata allocation.  Both variants are
/// unrecoverable by design: the caller owns no error channel at the
/// depth where they arise, so it must treat them as fatal faults rather
/// than retry.
#[derive(Clone, Copy, Debug, PartialEq, Eq, Structural)]
pub enum HeapFault {
    /// The request exceeded one frame: the heap grows at most one frame
    /// per rescue, so such a request is a configuration error and is
    /// rejected outright, never silently truncated.
    OversizeRequest,
    /// The rescue found no free frame: the heap is exhausted.
    OutOfFrames,
}

/// The metadata heap, modelled by its capacity accounting: how many
/// bytes it owns and how many are allocated out of it.
pub struct HeapManager {
    total: usize,
    allocated: usize,
}

impl HeapManager {
    /// Bytes of backing the heap currently owns.
    pub closed spec fn total(self) -> usize {
        self.total
    }

    /// Bytes currently allocated out of the heap.
    pub closed spec fn allocated_bytes(self) -> usize {
        self.allocated
    }

    /// Bytes still free.
    pub open spec fn free_space(self) -> int {
        self.total() - self.allocated_bytes()
    }

    /// The books balance: no more is allocated than is owned.
    pub closed spec fn wf(self) -> bool {
        self.allocated <= self.total
    }

    /// A heap owning `total` bytes with nothing allocated yet.
    pub fn new(total: usize) -> (r: HeapManager)
        ensures
            r.wf(),
            r.total() == total,
            r.allocated_bytes() == 0,
    {
        HeapManager { total, allocated: 0 }
    }

    /// Bytes of backing the heap currently owns.
    pub fn stats_total_bytes(&self) -> (r: usize)
        ensures
            r == self.total(),
    {
        self.total
    }

    /// Bytes currently allocated out of the heap.
    pub fn stats_alloc_actual(&self) -> (r: usize)
        ensures
            r == self.allocated_bytes(),
    {
        self.allocated
    }

    /// Extend the heap's capacity by `bytes`.
    fn grow(&mut self, bytes: usize)
        requires
            old(self).wf(),
            old(self).total() + bytes <= usize::MAX,
        ensures
            final(self).wf(),
            final(self).total() == old(self).total() + bytes,
            final(self).allocated_bytes() == old(self).allocated_bytes(),
    {
        self.total = self.total + bytes;
    }

    /// Allocate `size` bytes of metadata.  If the free space does not
    /// cover the request, the heap rescues itself: a request larger
    /// than one frame is a fatal configuration error, otherwise exactly
    /// one frame is pulled from the frame allocator and the capacity
    /// grows by that frame — which then always covers the request.  The
    /// rescue fails fatally only when the allocator has no block to
    /// give.
    pub fn metadata_alloc(&mut self, frames: &mut FrameManager, size: usize) -> (r: Result<
        (),
        HeapFault,
    >)
        requires
            old(self).wf(),
            old(frames).wf(),
            old(frames).allocated() + MAX_BLOCK_FRAMES <= usize::MAX,
            old(frames).frames().len() >= 1 ==> old(self).total() + FRAME_SIZE <= usize::MAX,
        ensures
            final(self).wf(),
            final(frames).wf(),
            final(frames).frames().subset_of(old(frames).frames()),
            old(self).free_space() >= size ==> {
                &&& r is Ok
                &&& final(self).total() == old(self).total()
                &&& final(self).allocated_bytes() == old(self).allocated_bytes() + size
                &&& final(frames).frames() == old(frames).frames()
                &&& final(frames).allocated() == old(frames).allocated()
            },
            old(self).free_space() < size && size > FRAME_SIZE ==> {
                &&& r == Err::<(), HeapFault>(HeapFault::OversizeRequest)
                &&& *final(self) == *old(self)
                &&& final(frames).frames() == old(frames).frames()
                &&& final(frames).allocated() == old(frames).allocated()
            },
            old(self).free_space() < size <= FRAME_SIZE ==> {
                &&& (old(frames).frames().len() >= 1 ==> r is Ok)
                &&& (r is Ok ==> {
                    &&& final(self).total() == old(self).total() + FRAME_SIZE
                    &&& final(self).allocated_bytes() == old(self).allocated_bytes() + size
                    &&& final(frames).frames().len() == old(frames).frames().len() - 1
                    &&& final(frames).allocated() == old(frames).allocated() + 1
                })
                &&& (r is Err ==> {
                    &&& r == Err::<(), HeapFault>(HeapFault::OutOfFrames)
                    &&& *final(self) == *old(self)
                    &&& final(frames).frames() == old(frames).frames()
                    &&& final(frames).allocated() == old(frames).allocated()
                })
            },
    {
        let free = self.total - self.allocated;
        if size <= free {
            self.allocated = self.allocated + size;
            Ok(())
        } else if size > FRAME_SIZE {
            Err(HeapFault::OversizeRequest)
        } else {
            proof {
                assert(next_pow2(1) == 1);
                lemma_next_pow2_max_block();
            }
            match frames.alloc_frames(1) {
                Some(f) => {
                    proof {
                        lemma_frame_range_len(f as int, f + 1);
                    }
                    self.total = self.total + FRAME_SIZE;
                    self.allocated = self.allocated + size;
                    Ok(())
                },
                None => Err(HeapFault::OutOfFrames),
            }
        }
    }
}

/// What `coffer_mem_alloc` promises: the pool geometry and the heap are
/// untouched; the call either succeeds or is denied with nothing
/// changed; a request of at most one frame is owed success whenever any
/// frame is free; and a success returns a frame-aligned address whose
/// whole rounded-up allocation lies inside the pool, removes exactly
/// the allocated block's frames from the free frames, and records `eid`
/// as the owner of the first frame.  For requests beyond one frame,
/// whether a contiguous run exists depends on the buddy block
/// structure, which the free-frame model does not carry, so denial is
/// not tied to an availability condition there.
pub open spec fn spec_mem_alloc_post(
    pre: MemoryManager,
    post: MemoryManager,
    eid: EnclaveId,
    size: usize,
    r: SbiRet,
) -> bool {
    &&& post.pool_start() == pre.pool_start()
    &&& post.pool_size() == pre.pool_size()
    &&& post.heap_total() == pre.heap_total()
    &&& post.heap_allocated() == pre.heap_allocated()
    &&& post.heap_frames() == pre.heap_frames()
    &&& (r.error == RET_SUCCESS || r == (SbiRet { error: RET_ERR_DENIED, value: 0 }))
    &&& (size <= FRAME_SIZE && pre.frames().len() >= 1 ==> r.error == RET_SUCCESS)
    &&& (r.error != RET_SUCCESS ==> {
        &&& post.frames() == pre.frames()
        &&& post.user_frames() == pre.user_frames()
        &&& post.owners() == pre.owners()
    })
    &&& (r.error == RET_SUCCESS ==> {
        let first_frame = ((r.value - pre.pool_start()) as int) / (FRAME_SIZE as int);
        &&& (r.value - pre.pool_start()) % (FRAME_SIZE as int) == 0
        &&& (pre.pool_start() as int % (FRAME_SIZE as int) == 0 ==> r.value as int % (
        FRAME_SIZE as int) == 0)
        &&& pre.pool_start() <= r.value
        &&& r.value + spec_align_up(size as int, FRAME_SIZE as int) <= pre.pool_start()
            + pre.pool_size()
        &&& pre.frames() == post.frames().add(
            frame_range(
                first_frame,
                first_frame + next_pow2(spec_frames_for(size as int)),
            ),
        )
        &&& post.frames().subset_of(pre.frames())
        &&& post.frames().len() == pre.frames().len() - next_pow2(spec_frames_for(size as int))
        &&& post.user_frames() == pre.user_frames() + next_pow2(spec_frames_for(size as int))
        &&& post.owners() == pre.owners().push((eid, first_frame as usize))
    })
}

/// What the memory self-test entry point promises: the pool geometry,
/// the outstanding allocations and the ownership record are untouched;
/// an unknown test identifier is not supported and changes nothing; and
/// the allocator-and-heap exercise either succeeds — leaving, when the
/// heap had room for its first small allocation, exactly one more frame
/// backing the heap and one fewer free — or reports failure.
pub open spec fn spec_memory_test_post(
    pre: MemoryManager,
    post: MemoryManager,
    test_id: usize,
    r: SbiRet,
) -> bool {
    &&& post.pool_start() == pre.pool_start()
    &&& post.pool_size() == pre.pool_size()
    &&& post.user_frames() == pre.user_frames()
    &&& post.owners() == pre.owners()
    &&& (test_id != 0 ==> r == (SbiRet { error: RET_ERR_NOT_SUPPORTED, value: 0 }) && post == pre)
    &&& (test_id == 0 ==> {
        &&& (r.error == RET_SUCCESS || r == (SbiRet { error: RET_ERR_FAILED, value: 0 }))
        &&& (r.error == RET_SUCCESS && pre.heap_free() >= 10 ==> {
            &&& post.frames().len() == pre.frames().len() - 1
            &&& post.heap_total() == pre.heap_total() + FRAME_SIZE
        })
    })
}

/// The rounded-up number of frames a request of `size` bytes occupies;
/// a zero-byte request still occupies one frame, as the allocator
/// rounds every request up to at least one block.
pub open spec fn spec_frames_for(size: int) -> nat {
    let nf = spec_align_up(size, FRAME_SIZE as int) / (FRAME_SIZE as int);
    if nf <= 0 {
        1
    } else {
        nf as nat
    }
}

/// The memory subsystem: pool geometry, the frame allocator, the
/// metadata heap, and an exact ledger of where every frame of the pool
/// currently is (free, handed out, or backing the heap).
pub struct MemoryManager {
    pool_start: usize,
    pool_size: usize,
    frames: FrameManager,
    heap: HeapManager,
    heap_frames: usize,
    user_frames: usize,
    owners: Vec<(EnclaveId, usize)>,
}

impl MemoryManager {
    /// Physical address where the pool begins.
    pub closed spec fn pool_start(self) -> usize {
        self.pool_start
    }

    /// Size of the pool in bytes.
    pub closed spec fn pool_size(self) -> usize {
        self.pool_size
    }

    /// Number of frames in the pool.
    pub open spec fn num_frames(self) -> int {
        self.pool_size() as int / (FRAME_SIZE as int)
    }

    /// The multiset of currently free frame indices.
    pub closed spec fn frames(self) -> Multiset<usize> {
        self.frames.frames()
    }

    /// Frames currently backing the heap, the initial frame 0 included.
    pub closed spec fn heap_frames(self) -> usize {
        self.heap_frames
    }

    /// Frames currently handed out to callers, in power-of-two blocks.
    pub closed spec fn user_frames(self) -> usize {
        self.user_frames
    }

    /// Bytes of backing the heap owns.
    pub closed spec fn heap_total(self) -> usize {
        self.heap.total()
    }

    /// Bytes allocated out of the heap.
    pub closed spec fn heap_allocated(self) -> usize {
        self.heap.allocated_bytes()
    }

    /// Bytes of heap still free.
    pub open spec fn heap_free(self) -> int {
        self.heap_total() - self.heap_allocated()
    }

    /// The accounting record of allocations: who owns which first
    /// frame.
    pub closed spec fn owners(self) -> Seq<(EnclaveId, usize)> {
        self.owners@
    }

    /// The manager's invariant.  The geometry is valid; each free frame
    /// index is in range `[1, num_frames)` and free at most once; and
    /// the ledger balances: every frame of the pool is free, handed
    /// out, or backing the heap, and the allocator's outstanding count
    /// matches the ledger.
    pub closed spec fn wf(self) -> bool {
        &&& spec_valid_pool(self.pool_start, self.pool_size)
        &&& self.frames.wf()
        &&& self.heap.wf()
        &&& 1 <= self.heap_frames
        &&& self.heap.total() == FRAME_SIZE * self.heap_frames
        &&& self.frames.frames().len() + self.user_frames + self.heap_frames == self.num_frames()
        &&& self.frames.allocated() == self.user_frames + self.heap_frames - 1
        &&& forall|i: usize|
            #[trigger] self.frames.frames().count(i) <= 1 && (self.frames.frames().count(i) > 0
                ==> 1 <= i < self.num_frames())
    }

    /// The number of frames currently free.
    pub fn free_frame_count(&self) -> (r: usize)
        requires
            self.wf(),
        ensures
            r == self.frames().len(),
    {
        self.frames.free_frame_count()
    }

    /// Physical address where the pool begins.
    pub fn pool_start_addr(&self) -> (r: usize)
        ensures
            r == self.pool_start(),
    {
        self.pool_start
    }

    /// Size of the pool in bytes.
    pub fn pool_size_bytes(&self) -> (r: usize)
        ensures
            r == self.pool_size(),
    {
        self.pool_size
    }

    /// Bytes of backing the heap owns.
    pub fn heap_total_bytes(&self) -> (r: usize)
        ensures
            r == self.heap_total(),
    {
        self.heap.stats_total_bytes()
    }

    /// Bytes allocated out of the heap.
    pub fn heap_allocated_bytes(&self) -> (r: usize)
        ensures
            r == self.heap_allocated(),
    {
        self.heap.stats_alloc_actual()
    }
}

/// Bounds that every well-formed manager obeys: the pool holds at least
/// two frames, its byte size is exactly `num_frames` frames, the
/// allocator's outstanding count leaves room for one more block, and —
/// whenever any frame is still free — the heap can still grow by one
/// frame without overflowing.
proof fn lemma_mm_bounds(m: MemoryManager)
    requires
        m.wf(),
    ensures
        m.num_frames() >= 2,
        FRAME_SIZE * m.num_frames() == m.pool_size(),
        m.frames.allocated() + 16 + MAX_BLOCK_FRAMES <= usize::MAX,
        m.frames().len() + 16 + MAX_BLOCK_FRAMES <= usize::MAX,
        m.frames().len() >= 1 ==> m.heap_total() + FRAME_SIZE <= usize::MAX,
        m.user_frames() + m.heap_frames() <= m.num_frames(),
{
    let fs = FRAME_SIZE as int;
    let nf = m.num_frames();
    lemma_fundamental_div_mod(m.pool_size() as int, fs);
    assert(m.pool_size() == fs * nf);
    if nf <= 1 {
        lemma_mul_inequality(nf, 1, fs);
        lemma_mul_is_commutative(fs, nf);
        assert(false);
    }
    assert(nf - 1 + 16 + MAX_BLOCK_FRAMES <= fs * nf) by (nonlinear_arith)
        requires
            nf >= 2,
            fs == 0x20_0000,
            MAX_BLOCK_FRAMES == 0x10_0000,
    ;
    if m.frames().len() >= 1 {
        lemma_mul_inequality(m.heap_frames() as int, nf - 1, fs);
        lemma_mul_is_commutative(fs, m.heap_frames() as int);
        lemma_mul_is_commutative(fs, nf - 1);
        lemma_mul_is_distributive_add_other_way(fs, nf - 1, 1);
    }
}

impl MemoryManager {
    /// Set up the memory subsystem over the pool `[pool_start,
    /// pool_start + pool_size)`.  The geometry must be a nonzero start
    /// and a size that is a multiple of `FRAME_SIZE` strictly larger
    /// than one frame (and the pool must fit in the address space);
    /// anything else is rejected as an invalid parameter, with nothing
    /// built.  On success, frame 0 backs the initial heap and frames
    /// `1..num_frames` are registered free.
    pub fn coffer_memory_init(pool_start: usize, pool_size: usize) -> (r: Result<
        MemoryManager,
        SbiRet,
    >)
        ensures
            r is Ok <==> spec_valid_pool(pool_start, pool_size),
            r matches Err(e) ==> e == (SbiRet { error: RET_ERR_INVALID_PARAM, value: 0 }),
            r matches Ok(m) ==> {
                &&& m.wf()
                &&& m.pool_start() == pool_start
                &&& m.pool_size() == pool_size
                &&& m.frames() == frame_range(1, m.num_frames())
                &&& m.frames().len() == m.num_frames() - 1
                &&& m.heap_total() == FRAME_SIZE
                &&& m.heap_allocated() == 0
                &&& m.user_frames() == 0
                &&& m.heap_frames() == 1
                &&& m.owners().len() == 0
            },
    {
        if pool_start == 0 || pool_size <= FRAME_SIZE || pool_size % FRAME_SIZE != 0 {
            return Err(SbiRet::invalid_param());
        }
        if pool_size > usize::MAX - pool_start {
            return Err(SbiRet::invalid_param());
        }
        let nframes = pool_size / FRAME_SIZE;
        proof {
            let fs = FRAME_SIZE as int;
            lemma_fundamental_div_mod(pool_size as int, fs);
            if nframes <= 1 {
                lemma_mul_inequality(nframes as int, 1, fs);
                lemma_mul_is_commutative(fs, nframes as int);
                assert(false);
            }
        }
        let mut frames = FrameManager::new();
        proof {
            lemma_frame_range_len(1, nframes as int);
        }
        frames.add_frame(1, nframes);
        let heap = HeapManager::new(FRAME_SIZE);
        let m = MemoryManager {
            pool_start,
            pool_size,
            frames,
            heap,
            heap_frames: 1,
            user_frames: 0,
            owners: Vec::new(),
        };
        proof {
            assert(m.frames.frames() =~= frame_range(1, nframes as int));
            assert forall|i: usize|
                #[trigger] m.frames.frames().count(i) <= 1 && (m.frames.frames().count(i) > 0
                    ==> 1 <= i < m.num_frames()) by {
                lemma_frame_range_count(1, nframes as int, i);
            }
        }
        Ok(m)
    }

    /// Allocate `size` bytes of enclave memory for `eid`.  The size is
    /// rounded up to the next multiple of `FRAME_SIZE` before the
    /// search; on success the returned value is the physical address of
    /// a contiguous run covering the rounded request, frame-aligned
    /// within the pool, and `eid` is recorded as the owner.  When no
    /// sufficiently large contiguous run of free frames exists the
    /// request is denied outright — never partially satisfied — and
    /// nothing changes.  A request of at most one frame is denied only
    /// when no frame is free; for larger requests, whether a contiguous
    /// run exists depends on the buddy block structure, which the
    /// free-frame model does not carry, so the contract does not tie
    /// their denial to an availability condition.
    pub fn coffer_mem_alloc(&mut self, eid: EnclaveId, size: usize) -> (r: SbiRet)
        requires
            old(self).wf(),
        ensures
            final(self).wf(),
            spec_mem_alloc_post(*old(self), *final(self), eid, size, r),
    {
        if size > usize::MAX - (FRAME_SIZE - 1) {
            return SbiRet::denied();
        }
        let aligned = align_up(size, FRAME_SIZE);
        let num_frame = aligned / FRAME_SIZE;
        let count: usize = if num_frame == 0 {
            1
        } else {
            num_frame
        };
        proof {
            // a request of at most one frame always rounds to one block
            if size <= FRAME_SIZE {
                lemma_fundamental_div_mod(aligned as int, FRAME_SIZE as int);
                assert(count == 1);
            }
        }
        if count > MAX_BLOCK_FRAMES {
            return SbiRet::denied();
        }
        proof {
            lemma_mm_bounds(*self);
            lemma_next_pow2_ge(count as nat);
            lemma_next_pow2_le(count as nat, MAX_BLOCK_FRAMES as nat);
            lemma_next_pow2_max_block();
            lemma_next_pow2_small_values();
            assert(count as nat == spec_frames_for(size as int));
        }
        let block = count.next_power_of_two();
        let ghost before = *self;
        match self.frames.alloc_frames(count) {
            Some(f) => {
                proof {
                    let fs = FRAME_SIZE as int;
                    let nf = before.num_frames();
                    let p2 = next_pow2(count as nat) as int;
                    lemma_frame_range_count(f as int, f + p2, f);
                    lemma_frame_range_count(f as int, f + p2, (f + block - 1) as usize);
                    assert(before.frames().count(f) > 0);
                    assert(before.frames().count((f + block - 1) as usize) > 0);
                    assert(1 <= f && f + p2 <= nf);
                    lemma_mul_inequality(f + p2, nf, fs);
                    lemma_mul_is_distributive_add_other_way(fs, f as int, p2);
                    lemma_mul_inequality(num_frame as int, p2, fs);
                    lemma_mul_is_commutative(fs, num_frame as int);
                    lemma_fundamental_div_mod(aligned as int, fs);
                    lemma_mod_multiples_basic(f as int, fs);
                    lemma_div_by_multiple(f as int, fs);
                    lemma_add_mod_noop(before.pool_start() as int, f * fs, fs);
                }
                self.user_frames = self.user_frames + block;
                self.owners.push((eid, f));
                let paddr = self.pool_start + f * FRAME_SIZE;
                proof {
                    assert forall|i: usize|
                        #[trigger] self.frames.frames().count(i) <= 1 && (
                        self.frames.frames().count(i) > 0 ==> 1 <= i < self.num_frames()) by {
                        assert(self.frames.frames().count(i) <= before.frames().count(i));
                    }
                }
                SbiRet::success(paddr)
            },
            None => SbiRet::denied(),
        }
    }

    /// Allocate `size` bytes of monitor metadata from the heap, growing
    /// the heap by one rescued frame when the free space does not cover
    /// the request (see [`HeapManager::metadata_alloc`]).
    pub fn metadata_alloc(&mut self, size: usize) -> (r: Result<(), HeapFault>)
        requires
            old(self).wf(),
        ensures
            final(self).wf(),
            final(self).pool_start() == old(self).pool_start(),
            final(self).pool_size() == old(self).pool_size(),
            final(self).user_frames() == old(self).user_frames(),
            final(self).owners() == old(self).owners(),
            old(self).heap_free() >= size ==> {
                &&& r is Ok
                &&& final(self).heap_total() == old(self).heap_total()
                &&& final(self).heap_allocated() == old(self).heap_allocated() + size
                &&& final(self).frames() == old(self).frames()
            },
            old(self).heap_free() < size && size > FRAME_SIZE ==> {
                &&& r == Err::<(), HeapFault>(HeapFault::OversizeRequest)
                &&& final(self).heap_total() == old(self).heap_total()
                &&& final(self).heap_allocated() == old(self).heap_allocated()
                &&& final(self).frames() == old(self).frames()
            },
            old(self).heap_free() < size <= FRAME_SIZE ==> {
                &&& (old(self).frames().len() >= 1 ==> r is Ok)
                &&& (r is Ok ==> {
                    &&& final(self).heap_total() == old(self).heap_total() + FRAME_SIZE
                    &&& final(self).heap_allocated() == old(self).heap_allocated() + size
                    &&& final(self).frames().len() == old(self).frames().len() - 1
                    &&& final(self).frames().subset_of(old(self).frames())
                })
                &&& (r is Err ==> {
                    &&& r == Err::<(), HeapFault>(HeapFault::OutOfFrames)
                    &&& final(self).heap_total() == old(self).heap_total()
                    &&& final(self).heap_allocated() == old(self).heap_allocated()
                    &&& final(self).frames() == old(self).frames()
                })
            },
    {
        proof {
            lemma_mm_bounds(*self);
        }
        let ghost before = *self;
        let t0 = self.heap.stats_total_bytes();
        let r = self.heap.metadata_alloc(&mut self.frames, size);
        if self.heap.stats_total_bytes() > t0 {
            self.heap_frames = self.heap_frames + 1;
        }
        proof {
            assert forall|i: usize|
                #[trigger] self.frames.frames().count(i) <= 1 && (self.frames.frames().count(i)
                    > 0 ==> 1 <= i < self.num_frames()) by {
                assert(self.frames.frames().count(i) <= before.frames().count(i));
            }
        }
        r
    }

    /// The physical address where `frame` begins.
    pub fn frame_to_paddr(&self, frame: usize) -> (r: usize)
        requires
            self.wf(),
            frame <= self.num_frames(),
        ensures
            r == self.pool_start() + frame * FRAME_SIZE,
    {
        proof {
            lemma_mm_bounds(*self);
            lemma_mul_inequality(frame as int, self.num_frames(), FRAME_SIZE as int);
        }
        self.pool_start + frame * FRAME_SIZE
    }

    /// Exercise the frame allocator: allocate two single frames, return
    /// them, allocate a two-frame run and an aligned seven-frame run,
    /// return those, then a hundred-frame run and return it.  Every
    /// allocation is paired with its deallocation, so on any outcome the
    /// free frames are exactly what they were; `false` reports that some
    /// allocation found no block.
    fn frame_allocator_selftest(&mut self) -> (ok: bool)
        requires
            old(self).wf(),
        ensures
            final(self).wf(),
            final(self).frames() == old(self).frames(),
            final(self).frames.allocated() == old(self).frames.allocated(),
            final(self).pool_start() == old(self).pool_start(),
            final(self).pool_size() == old(self).pool_size(),
            final(self).heap_total() == old(self).heap_total(),
            final(self).heap_allocated() == old(self).heap_allocated(),
            final(self).heap_frames() == old(self).heap_frames(),
            final(self).user_frames() == old(self).user_frames(),
            final(self).owners() == old(self).owners(),
    {
        let ghost orig = self.frames.frames();
        let ghost a0 = self.frames.allocated() as int;
        proof {
            lemma_mm_bounds(*self);
            lemma_next_pow2_small_values();
            lemma_next_pow2_max_block();
            lemma_next_pow2_le(1, MAX_BLOCK_FRAMES as nat);
            lemma_next_pow2_le(2, MAX_BLOCK_FRAMES as nat);
            lemma_next_pow2_le(7, MAX_BLOCK_FRAMES as nat);
            lemma_next_pow2_le(100, MAX_BLOCK_FRAMES as nat);
        }
        // two single frames, then give both back
        let f1 = match self.frames.alloc_frames(1) {
            Some(f) => f,
            None => { return false; },
        };
        let ghost s1 = self.frames.frames();
        let ghost b1 = frame_range(f1 as int, f1 + 1);
        let f2 = match self.frames.alloc_frames(1) {
            Some(f) => f,
            None => {
                proof {
                    lemma_block_disjoint(orig, s1, b1);
                }
                self.frames.dealloc(f1, 1);
                proof {
                    assert(self.frames.frames() =~= orig);
                }
                return false;
            },
        };
        let ghost s2 = self.frames.frames();
        let ghost b2 = frame_range(f2 as int, f2 + 1);
        proof {
            lemma_block_disjoint(orig, s2, b1);
        }
        self.frames.dealloc(f1, 1);
        proof {
            lemma_block_disjoint(orig, self.frames.frames(), b2);
        }
        self.frames.dealloc(f2, 1);
        proof {
            assert(self.frames.frames() =~= orig);
        }
        // a two-frame run and an aligned seven-frame run, then give both back
        let f3 = match self.frames.alloc_frames(2) {
            Some(f) => f,
            None => { return false; },
        };
        let ghost t1 = self.frames.frames();
        let ghost b3 = frame_range(f3 as int, f3 + 2);
        let f4 = match self.frames.alloc_aligned(7, 8) {
            Some(f) => f,
            None => {
                proof {
                    lemma_block_disjoint(orig, t1, b3);
                }
                self.frames.dealloc(f3, 2);
                proof {
                    assert(self.frames.frames() =~= orig);
                }
                return false;
            },
        };
        let ghost t2 = self.frames.frames();
        let ghost b4 = frame_range(f4 as int, f4 + 8);
        proof {
            lemma_block_disjoint(orig, t2, b3);
        }
        self.frames.dealloc(f3, 2);
        proof {
            lemma_block_disjoint(orig, self.frames.frames(), b4);
        }
        self.frames.dealloc(f4, 7);
        proof {
            assert(self.frames.frames() =~= orig);
        }
        // a hundred-frame run, then give it back
        let f5 = match self.frames.alloc_frames(100) {
            Some(f) => f,
            None => { return false; },
        };
        let ghost b5 = frame_range(f5 as int, f5 + 128);
        proof {
            lemma_block_disjoint(orig, self.frames.frames(), b5);
        }
        self.frames.dealloc(f5, 100);
        proof {
            assert(self.frames.frames() =~= orig);
        }
        true
    }

    /// The rescue as a first-class operation for the platform's byte
    /// allocator: pull exactly one frame from the frame allocator,
    /// account it to the heap, and return its physical address so the
    /// caller can take possession of the backing memory.  It succeeds
    /// whenever any frame is free; `None` means none was — heap
    /// exhaustion, which the caller must treat as fatal.
    pub fn heap_rescue(&mut self) -> (r: Option<usize>)
        requires
            old(self).wf(),
        ensures
            final(self).wf(),
            old(self).frames().len() >= 1 ==> r is Some,
            final(self).pool_start() == old(self).pool_start(),
            final(self).pool_size() == old(self).pool_size(),
            final(self).user_frames() == old(self).user_frames(),
            final(self).owners() == old(self).owners(),
            final(self).heap_allocated() == old(self).heap_allocated(),
            r matches Some(paddr) ==> {
                &&& final(self).heap_total() == old(self).heap_total() + FRAME_SIZE
                &&& final(self).heap_frames() == old(self).heap_frames() + 1
                &&& final(self).frames().len() == old(self).frames().len() - 1
                &&& final(self).frames().subset_of(old(self).frames())
                &&& (paddr - old(self).pool_start()) % (FRAME_SIZE as int) == 0
                &&& old(self).pool_start() <= paddr
                &&& paddr + FRAME_SIZE <= old(self).pool_start() + old(self).pool_size()
            },
            r is None ==> {
                &&& final(self).heap_total() == old(self).heap_total()
                &&& final(self).heap_frames() == old(self).heap_frames()
                &&& final(self).frames() == old(self).frames()
            },
    {
        proof {
            lemma_mm_bounds(*self);
            lemma_next_pow2_small_values();
            lemma_next_pow2_le(1, MAX_BLOCK_FRAMES as nat);
        }
        let ghost before = *self;
        match self.frames.alloc_frames(1) {
            Some(f) => {
                proof {
                    let fs = FRAME_SIZE as int;
                    let nf = before.num_frames();
                    lemma_frame_range_count(f as int, f + 1, f);
                    assert(before.frames().count(f) > 0);
                    assert(1 <= f && f + 1 <= nf);
                    lemma_frame_range_len(f as int, f + 1);
                    lemma_mul_inequality(f + 1, nf, fs);
                    lemma_mul_is_distributive_add_other_way(fs, f as int, 1);
                    lemma_mod_multiples_basic(f as int, fs);
                }
                self.heap.grow(FRAME_SIZE);
                self.heap_frames = self.heap_frames + 1;
                let paddr = self.pool_start + f * FRAME_SIZE;
                proof {
                    assert forall|i: usize|
                        #[trigger] self.frames.frames().count(i) <= 1 && (
                        self.frames.frames().count(i) > 0 ==> 1 <= i < self.num_frames()) by {
                        assert(self.frames.frames().count(i) <= before.frames().count(i));
                    }
                }
                Some(paddr)
            },
            None => None,
        }
    }

    /// The memory subsystem's self-test: exercise the frame allocator
    /// with paired allocations and deallocations, then the heap with a
    /// small allocation, one that fills the remaining free space, one
    /// that forces a rescue, and one that fits in the rescued frame.
    /// On success the free frames are down by exactly the one frame the
    /// rescue consumed and the heap owns exactly one frame more; a
    /// failed allocation reports `Failed` instead.  The contract does
    /// not promise success on any pool: the multi-frame exercises need
    /// contiguous runs of two, eight and a hundred-odd frames, and
    /// whether those exist depends on the buddy block structure, which
    /// the free-frame model does not carry.
    pub fn coffer_memory_test0(&mut self) -> (r: SbiRet)
        requires
            old(self).wf(),
        ensures
            final(self).wf(),
            final(self).pool_start() == old(self).pool_start(),
            final(self).pool_size() == old(self).pool_size(),
            final(self).user_frames() == old(self).user_frames(),
            final(self).owners() == old(self).owners(),
            r.error == RET_SUCCESS || r == (SbiRet { error: RET_ERR_FAILED, value: 0 }),
            r.error == RET_SUCCESS && old(self).heap_free() >= 10 ==> {
                &&& final(self).frames().len() == old(self).frames().len() - 1
                &&& final(self).heap_total() == old(self).heap_total() + FRAME_SIZE
                &&& final(self).heap_allocated() == old(self).heap_total() + 1 + 0x1000
            },
    {
        if !self.frame_allocator_selftest() {
            return SbiRet::failed();
        }
        if self.metadata_alloc(10).is_err() {
            return SbiRet::failed();
        }
        let total = self.heap_total_bytes();
        let allocated = self.heap_allocated_bytes();
        if self.metadata_alloc(total - allocated).is_err() {
            return SbiRet::failed();
        }
        if self.metadata_alloc(1).is_err() {
            return SbiRet::failed();
        }
        if self.metadata_alloc(0x1000).is_err() {
            return SbiRet::failed();
        }
        SbiRet::success(0)
    }

    /// The memory self-test entry point.  Test 0 is the allocator and
    /// heap exercise above; any other identifier is not supported here
    /// (inspecting raw physical memory is the platform layer's
    /// business, not this library's).
    pub fn coffer_memory_test(&mut self, test_id: usize) -> (r: SbiRet)
        requires
            old(self).wf(),
        ensures
            final(self).wf(),
            spec_memory_test_post(*old(self), *final(self), test_id, r),
    {
        if test_id == 0 {
            self.coffer_memory_test0()
        } else {
            SbiRet::not_supported()
        }
    }

    /// The frame index that contains the physical address `paddr`.
    pub fn _paddr_to_frame(&self, paddr: usize) -> (r: usize)
        requires
            self.wf(),
            self.pool_start() <= paddr,
        ensures
            r == ((paddr - self.pool_start()) as int) / (FRAME_SIZE as int),
    {
        (paddr - self.pool_start) / FRAME_SIZE
    }
}

} // verus!
