//! The enclave registry: the table of enclaves the monitor owns, and
//! the privileged context switches into and out of them.
//!
//! Each enclave holds one host-shadow snapshot (the context that was
//! executing when the enclave was entered, to be restored on exit) and
//! a bounded sequence of guest vCPU snapshots.  Entry and exit are the
//! two halves of the switch protocol: entering saves the live register
//! file into the host shadow and loads guest vCPU 0; exiting saves the
//! live register file into guest vCPU 0 and restores the host shadow.

use vstd::prelude::*;
use vstd::array::spec_array_update;
use crate::enclave_id::EnclaveId;
use crate::sbi::{SbiRet, RET_SUCCESS, RET_ERR_DENIED, RET_ERR_INVALID_PARAM};
use crate::vcpu::{Gprs, RegisterFile, VCpu};

verus! {

broadcast use vstd::array::group_array_axioms;

/// The most vCPUs one enclave may hold: one per hart.
pub const NUM_HART_MAX: usize = 8;

/// The entry point handed to `create_empty_enclave`: an arbitrary
/// placeholder address (to be replaced once entry points are allocated
/// for real), minus the instruction-width adjustment the trap handler
/// applies when it resumes the trapped hart.  The value is kept inside
/// the 32-bit address range because the verifier checks this code for
/// 32-bit as well as 64-bit `usize`, and a wider placeholder would not
/// even be a representable address there.
pub const EMPTY_ENCLAVE_START_PC: usize = 0x2000_0000 - 4;

/// One enclave: its identifier, the host-shadow context saved on entry,
/// and its guest vCPU snapshots.
pub struct Enclave {
    /// The logical owner identifier.  Identifier allocation is a
    /// placeholder: every enclave is currently stamped `Encl(1)`.
    pub eid: EnclaveId,
    /// The context that was executing when this enclave was last
    /// entered; restored on exit.
    pub host_vcpu: VCpu,
    /// The guest contexts, one per hart, at least one.
    pub vcpus: Vec<VCpu>,
}

/// What a freshly created enclave looks like: the placeholder
/// identifier, a zeroed host shadow, and exactly one guest context at
/// `start_pc`.
pub open spec fn spec_fresh_enclave(e: Enclave, start_pc: usize) -> bool {
    &&& e.eid == EnclaveId::Encl(1)
    &&& e.host_vcpu == VCpu::spec_init_context(0)
    &&& e.vcpus@.len() == 1
    &&& e.vcpus@[0] == VCpu::spec_init_context(start_pc)
}

impl Enclave {
    /// An enclave's own invariant: it has between one and
    /// `NUM_HART_MAX` guest contexts.
    pub open spec fn wf(self) -> bool {
        1 <= self.vcpus@.len() <= NUM_HART_MAX
    }

    /// Build a new enclave whose single guest context starts at
    /// `start_pc`, with a zeroed host shadow.
    pub fn new(start_pc: usize) -> (r: Enclave)
        ensures
            r.wf(),
            spec_fresh_enclave(r, start_pc),
    {
        let mut vcpus: Vec<VCpu> = Vec::with_capacity(NUM_HART_MAX);
        vcpus.push(VCpu::init_context(start_pc));
        Enclave { eid: EnclaveId::Encl(1), host_vcpu: VCpu::init_context(0), vcpus }
    }
}

/// Exclusive access to one slot of a vector.
fn vec_index_mut<T>(vec: &mut Vec<T>, i: usize) -> (element: &mut T)
    requires
        i < old(vec).len(),
    ensures
        *element == old(vec)@[i as int],
        final(vec)@ == old(vec)@.update(i as int, *final(element)),
{
    &mut vec[i]
}

/// The table of enclaves.  It is constructed exactly once: a second
/// initialization is rejected rather than repeated, so two racing
/// callers cannot both believe they performed first-time setup.
pub struct EnclaveRegistry {
    initialized: bool,
    enclaves: Vec<Enclave>,
}

impl EnclaveRegistry {
    /// Whether `coffer_sm_init` has run.
    pub closed spec fn is_initialized(self) -> bool {
        self.initialized
    }

    /// The enclaves, in creation order.
    pub closed spec fn enclaves(self) -> Seq<Enclave> {
        self.enclaves@
    }

    /// How many enclaves exist.
    pub open spec fn count(self) -> int {
        self.enclaves().len() as int
    }

    /// Every enclave in the table is well formed.
    pub closed spec fn wf(self) -> bool {
        forall|j: int| 0 <= j < self.count() ==> (#[trigger] self.enclaves()[j]).wf()
    }

    /// The registry before its one-time initialization: empty and not
    /// yet initialized.
    pub fn new() -> (r: EnclaveRegistry)
        ensures
            r.wf(),
            !r.is_initialized(),
            r.count() == 0,
    {
        EnclaveRegistry { initialized: false, enclaves: Vec::new() }
    }

    /// How many enclaves exist.
    pub fn enclave_count(&self) -> (r: usize)
        ensures
            r == self.count(),
    {
        self.enclaves.len()
    }

    /// A copy of guest vCPU `v` of enclave `idx`, or `None` when either
    /// index is out of range.
    pub fn guest_vcpu(&self, idx: usize, v: usize) -> (r: Option<VCpu>)
        ensures
            r is Some <==> idx < self.count() && v < self.enclaves()[idx as int].vcpus@.len(),
            r matches Some(c) ==> c == self.enclaves()[idx as int].vcpus@[v as int],
    {
        if idx >= self.enclaves.len() {
            return None;
        }
        if v >= self.enclaves[idx].vcpus.len() {
            return None;
        }
        Some(self.enclaves[idx].vcpus[v])
    }

    /// A copy of the host-shadow context of enclave `idx`, or `None`
    /// when the index is out of range.
    pub fn host_vcpu(&self, idx: usize) -> (r: Option<VCpu>)
        ensures
            r is Some <==> idx < self.count(),
            r matches Some(c) ==> c == self.enclaves()[idx as int].host_vcpu,
    {
        if idx >= self.enclaves.len() {
            return None;
        }
        Some(self.enclaves[idx].host_vcpu)
    }

    /// One-time initialization of the enclave subsystem.  The first
    /// call succeeds; any further call is rejected with `Denied` and
    /// changes no enclave state.
    pub fn coffer_sm_init(&mut self) -> (r: SbiRet)
        requires
            old(self).wf(),
        ensures
            final(self).wf(),
            final(self).enclaves() == old(self).enclaves(),
            !old(self).is_initialized() ==> {
                &&& r == (SbiRet { error: RET_SUCCESS, value: 0 })
                &&& final(self).is_initialized()
            },
            old(self).is_initialized() ==> {
                &&& r == (SbiRet { error: RET_ERR_DENIED, value: 0 })
                &&& *final(self) == *old(self)
            },
    {
        if self.initialized {
            return SbiRet::denied();
        }
        self.initialized = true;
        proof {
            assert(self.enclaves() =~= old(self).enclaves());
        }
        SbiRet::success(0)
    }

    /// What `create` promises: on an initialized registry the new
    /// enclave is fresh at `start_pc`, sits at the end of the table,
    /// its index — the table's previous size — is returned, and every
    /// existing enclave is untouched; on an uninitialized registry the
    /// call is denied and nothing changes.
    pub open spec fn spec_create_post(
        pre: EnclaveRegistry,
        post: EnclaveRegistry,
        start_pc: usize,
        r: Result<usize, SbiRet>,
    ) -> bool {
        &&& post.is_initialized() == pre.is_initialized()
        &&& (!pre.is_initialized() ==> {
            &&& r == Err::<usize, SbiRet>(SbiRet { error: RET_ERR_DENIED, value: 0 })
            &&& post.enclaves() == pre.enclaves()
        })
        &&& (pre.is_initialized() ==> {
            &&& r == Ok::<usize, SbiRet>(pre.count() as usize)
            &&& post.count() == pre.count() + 1
            &&& forall|j: int| 0 <= j < pre.count() ==> post.enclaves()[j] == pre.enclaves()[j]
            &&& spec_fresh_enclave(post.enclaves()[pre.count()], start_pc)
        })
    }

    /// Create a new enclave whose guest context starts at `start_pc`
    /// and append it to the table, returning its index.  Requires the
    /// registry to be initialized; creation before initialization is
    /// rejected with `Denied`.
    pub fn create(&mut self, start_pc: usize) -> (r: Result<usize, SbiRet>)
        requires
            old(self).wf(),
        ensures
            final(self).wf(),
            EnclaveRegistry::spec_create_post(*old(self), *final(self), start_pc, r),
    {
        if !self.initialized {
            return Err(SbiRet::denied());
        }
        let idx = self.enclaves.len();
        self.enclaves.push(Enclave::new(start_pc));
        proof {
            assert forall|j: int| 0 <= j < self.count() implies (#[trigger] self.enclaves()[j]).wf() by {
                if j < old(self).count() {
                    assert(self.enclaves()[j] == old(self).enclaves()[j]);
                    assert(old(self).enclaves()[j].wf());
                }
            }
        }
        Ok(idx)
    }

    /// Create an enclave at the placeholder entry point.
    pub fn create_empty_enclave(&mut self) -> (r: Result<usize, SbiRet>)
        requires
            old(self).wf(),
        ensures
            final(self).wf(),
            EnclaveRegistry::spec_create_post(
                *old(self),
                *final(self),
                EMPTY_ENCLAVE_START_PC,
                r,
            ),
    {
        self.create(EMPTY_ENCLAVE_START_PC)
    }

    /// Enter enclave `idx`: save the live register file into the
    /// enclave's host shadow, then load guest vCPU 0 into the live
    /// register file.  Resuming execution at the newly loaded program
    /// counter is the caller's responsibility.  An out-of-range index,
    /// or a registry that was never initialized, is rejected with
    /// `InvalidParam` and changes nothing.
    pub fn enter(&mut self, idx: usize, rf: &mut RegisterFile) -> (r: SbiRet)
        requires
            old(self).wf(),
        ensures
            final(self).wf(),
            final(self).is_initialized() == old(self).is_initialized(),
            !old(self).is_initialized() || idx >= old(self).count() ==> {
                &&& r == (SbiRet { error: RET_ERR_INVALID_PARAM, value: 0 })
                &&& *final(self) == *old(self)
                &&& *final(rf) == *old(rf)
            },
            old(self).is_initialized() && idx < old(self).count() ==> {
                &&& r == (SbiRet { error: RET_SUCCESS, value: 0 })
                &&& final(self).count() == old(self).count()
                &&& forall|j: int|
                    0 <= j < old(self).count() && j != idx ==> final(self).enclaves()[j] == old(
                        self,
                    ).enclaves()[j]
                &&& final(self).enclaves()[idx as int].host_vcpu == old(
                    self,
                ).enclaves()[idx as int].host_vcpu.spec_save(*old(rf))
                &&& final(self).enclaves()[idx as int].vcpus@ == old(
                    self,
                ).enclaves()[idx as int].vcpus@
                &&& final(self).enclaves()[idx as int].eid == old(self).enclaves()[idx as int].eid
                &&& *final(rf) == old(self).enclaves()[idx as int].vcpus@[0].spec_load(*old(rf))
            },
    {
        if !self.initialized {
            return SbiRet::invalid_param();
        }
        if idx >= self.enclaves.len() {
            return SbiRet::invalid_param();
        }
        let e = vec_index_mut(&mut self.enclaves, idx);
        e.host_vcpu.save_context(rf);
        let guest: VCpu = e.vcpus[0];
        guest.load_context(rf);
        SbiRet::success(0)
    }

    /// The guest context that the registry self-test leaves in enclave
    /// 0's vCPU 0 when the live register file was `rf`: the register
    /// file saved over the context, with argument register `a0` then
    /// overwritten by a recognizable pattern.
    pub open spec fn spec_sm_test_vcpu(v: VCpu, rf: RegisterFile) -> VCpu {
        let saved = v.spec_save(rf);
        VCpu {
            gpr: Gprs { a: spec_array_update(saved.gpr.a, 0, 0x98765432), ..saved.gpr },
            ..saved
        }
    }

    /// What the registry self-test promises: a registry that was never
    /// initialized denies the call and changes nothing; otherwise one
    /// enclave is created at the placeholder entry point, enclave 0's
    /// vCPU 0 ends up holding the live register file with its `a0`
    /// overwritten by the recognizable pattern, the live register file
    /// holds that context loaded back out, and nothing else changes.
    pub open spec fn spec_sm_test_post(
        pre: EnclaveRegistry,
        post: EnclaveRegistry,
        rf_pre: RegisterFile,
        rf_post: RegisterFile,
        r: SbiRet,
    ) -> bool {
        &&& post.is_initialized() == pre.is_initialized()
        &&& (!pre.is_initialized() ==> {
            &&& r == (SbiRet { error: RET_ERR_DENIED, value: 0 })
            &&& post.enclaves() == pre.enclaves()
            &&& rf_post == rf_pre
        })
        &&& (pre.is_initialized() ==> {
            let v0 = if pre.count() == 0 {
                VCpu::spec_init_context(EMPTY_ENCLAVE_START_PC)
            } else {
                pre.enclaves()[0].vcpus@[0]
            };
            &&& r == (SbiRet { error: RET_SUCCESS, value: 0 })
            &&& post.count() == pre.count() + 1
            &&& post.enclaves()[0].vcpus@[0] == EnclaveRegistry::spec_sm_test_vcpu(v0, rf_pre)
            &&& rf_post == EnclaveRegistry::spec_sm_test_vcpu(v0, rf_pre).spec_load(rf_pre)
            &&& forall|j: int| 1 <= j < pre.count() ==> post.enclaves()[j] == pre.enclaves()[j]
            &&& pre.count() > 0 ==> spec_fresh_enclave(
                post.enclaves()[pre.count()],
                EMPTY_ENCLAVE_START_PC,
            ) && post.enclaves()[0].host_vcpu == pre.enclaves()[0].host_vcpu
                && post.enclaves()[0].eid == pre.enclaves()[0].eid
            &&& pre.count() == 0 ==> post.enclaves()[0].eid == EnclaveId::Encl(1)
                && post.enclaves()[0].host_vcpu == VCpu::spec_init_context(0)
        })
    }

    /// The registry self-test: read the enclave count, create an
    /// enclave at the placeholder entry point, write a recognizable
    /// value into enclave 0's vCPU 0, then exercise the context
    /// transfer on that vCPU — save the live register file into it,
    /// overwrite its `a0`, and load it back out.  On a registry that
    /// was never initialized nothing happens and the call is denied.
    pub fn coffer_sm_test(&mut self, rf: &mut RegisterFile) -> (r: SbiRet)
        requires
            old(self).wf(),
        ensures
            final(self).wf(),
            EnclaveRegistry::spec_sm_test_post(*old(self), *final(self), *old(rf), *final(rf), r),
    {
        // read the enclave count, as a liveness check of the table
        let _count = self.enclave_count();
        // create an enclave at the placeholder entry point
        match self.create_empty_enclave() {
            Err(e) => {
                return e;
            },
            Ok(_) => {},
        }
        // write a recognizable value into enclave 0's vCPU 0, then
        // exercise save and load on it against the live register file
        let e = vec_index_mut(&mut self.enclaves, 0);
        let g = vec_index_mut(&mut e.vcpus, 0);
        g.gpr.a[0] = 0x12345678;
        g.save_context(rf);
        g.gpr.a[0] = 0x98765432;
        g.load_context(rf);
        SbiRet::success(0)
    }

    /// The enclave-entry self-test: create an enclave at the
    /// placeholder entry point and enter enclave 0 — save the live
    /// register file into its host shadow and load its guest context.
    /// On a registry that was never initialized nothing happens and the
    /// call is denied.
    pub fn coffer_enclave_test(&mut self, rf: &mut RegisterFile) -> (r: SbiRet)
        requires
            old(self).wf(),
        ensures
            final(self).wf(),
            final(self).is_initialized() == old(self).is_initialized(),
            !old(self).is_initialized() ==> {
                &&& r == (SbiRet { error: RET_ERR_DENIED, value: 0 })
                &&& final(self).enclaves() == old(self).enclaves()
                &&& *final(rf) == *old(rf)
            },
            old(self).is_initialized() ==> {
                let v0 = if old(self).count() == 0 {
                    VCpu::spec_init_context(EMPTY_ENCLAVE_START_PC)
                } else {
                    old(self).enclaves()[0].vcpus@[0]
                };
                let h0 = if old(self).count() == 0 {
                    VCpu::spec_init_context(0)
                } else {
                    old(self).enclaves()[0].host_vcpu
                };
                &&& r == (SbiRet { error: RET_SUCCESS, value: 0 })
                &&& final(self).count() == old(self).count() + 1
                &&& final(self).enclaves()[0].host_vcpu == h0.spec_save(*old(rf))
                &&& final(self).enclaves()[0].vcpus@[0] == v0
                &&& *final(rf) == v0.spec_load(*old(rf))
            },
    {
        match self.create_empty_enclave() {
            Err(e) => {
                return e;
            },
            Ok(_) => {},
        }
        self.enter(0, rf)
    }

    /// Leave enclave `idx`: save the live register file into guest
    /// vCPU 0, then restore the host shadow into the live register
    /// file — the exact mirror of `enter`.  An out-of-range index, or a
    /// registry that was never initialized, is rejected with
    /// `InvalidParam` and changes nothing.
    pub fn exit_enclave(&mut self, idx: usize, rf: &mut RegisterFile) -> (r: SbiRet)
        requires
            old(self).wf(),
        ensures
            final(self).wf(),
            final(self).is_initialized() == old(self).is_initialized(),
            !old(self).is_initialized() || idx >= old(self).count() ==> {
                &&& r == (SbiRet { error: RET_ERR_INVALID_PARAM, value: 0 })
                &&& *final(self) == *old(self)
                &&& *final(rf) == *old(rf)
            },
            old(self).is_initialized() && idx < old(self).count() ==> {
                &&& r == (SbiRet { error: RET_SUCCESS, value: 0 })
                &&& final(self).count() == old(self).count()
                &&& forall|j: int|
                    0 <= j < old(self).count() && j != idx ==> final(self).enclaves()[j] == old(
                        self,
                    ).enclaves()[j]
                &&& final(self).enclaves()[idx as int].host_vcpu == old(
                    self,
                ).enclaves()[idx as int].host_vcpu
                &&& final(self).enclaves()[idx as int].vcpus@ == old(
                    self,
                ).enclaves()[idx as int].vcpus@.update(
                    0,
                    old(self).enclaves()[idx as int].vcpus@[0].spec_save(*old(rf)),
                )
                &&& final(self).enclaves()[idx as int].eid == old(self).enclaves()[idx as int].eid
                &&& *final(rf) == old(self).enclaves()[idx as int].host_vcpu.spec_load(*old(rf))
            },
    {
        if !self.initialized {
            return SbiRet::invalid_param();
        }
        if idx >= self.enclaves.len() {
            return SbiRet::invalid_param();
        }
        let e = vec_index_mut(&mut self.enclaves, idx);
        let g = vec_index_mut(&mut e.vcpus, 0);
        g.save_context(rf);
        let host: VCpu = e.host_vcpu;
        host.load_context(rf);
        SbiRet::success(0)
    }
}

/// Law: each successful creation returns the enclave count that held
/// just before it and raises the count by one, so the indices of any
/// run of creations on an initialized registry are distinct and
/// strictly increasing, and after the run the count has grown by
/// exactly the number of creations.  Stated here for two consecutive
/// creations, from which the general run follows call by call.
pub proof fn lemma_create_indices_strictly_increase(
    r0: EnclaveRegistry,
    r1: EnclaveRegistry,
    r2: EnclaveRegistry,
    pc1: usize,
    pc2: usize,
    i1: usize,
    i2: usize,
)
    requires
        r0.is_initialized(),
        r0.count() + 1 <= usize::MAX,  // the table fits in memory
        EnclaveRegistry::spec_create_post(r0, r1, pc1, Ok(i1)),
        EnclaveRegistry::spec_create_post(r1, r2, pc2, Ok(i2)),
    ensures
        i1 < i2,
        i1 == r0.count(),
        i2 == r0.count() + 1,
        r2.count() == r0.count() + 2,
{
}

} // verus!
