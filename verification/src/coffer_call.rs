//! The monitor's call interface: one-time initialization, enclave
//! memory allocation, and the self-tests, dispatched by function
//! number.
//!
//! The whole monitor state lives in one explicitly constructed
//! [`Monitor`] value that the platform layer owns and passes into every
//! call, so the exactly-once initialization of each subsystem is a
//! verified property of this state rather than of hidden globals.

use vstd::prelude::*;
use crate::enclave::EnclaveRegistry;
use crate::enclave_id::EnclaveId;
use crate::frame_alloc::frame_range;
use crate::memory::{
    FRAME_SIZE,
    MemoryManager,
    spec_mem_alloc_post,
    spec_memory_test_post,
    spec_valid_pool,
};
use crate::sbi::{SbiRet, RET_SUCCESS, RET_ERR_DENIED, RET_ERR_INVALID_PARAM, RET_ERR_NOT_SUPPORTED};
use crate::vcpu::RegisterFile;

verus! {

/// The function numbers of the monitor call interface.
pub struct CofferCallFunc;

impl CofferCallFunc {
    /// One-time initialization of the whole monitor.
    pub const COFFER_INIT: usize = 0x0;

    /// Allocate enclave memory.
    pub const COFFER_MEM_ALLOC: usize = 0x1;

    /// Run a self-test.
    pub const COFFER_TEST: usize = 0x1000;
}

/// The security monitor's entire mutable state: the one-time
/// initialization latch, the memory subsystem (absent until
/// initialization), and the enclave registry.
pub struct Monitor {
    initialized: bool,
    memory: Option<MemoryManager>,
    registry: EnclaveRegistry,
}

impl Monitor {
    /// Whether `coffer_init` has completed successfully.
    pub closed spec fn is_initialized(self) -> bool {
        self.initialized
    }

    /// The memory subsystem, once built.
    pub closed spec fn memory(self) -> Option<MemoryManager> {
        self.memory
    }

    /// The enclave registry.
    pub closed spec fn registry(self) -> EnclaveRegistry {
        self.registry
    }

    /// The monitor's invariant: the subsystems are well formed, and the
    /// latch tells exactly whether both subsystems were brought up — the
    /// memory subsystem strictly before the enclave subsystem.
    pub closed spec fn wf(self) -> bool {
        &&& self.registry.wf()
        &&& (self.memory matches Some(m) ==> m.wf())
        &&& (self.initialized ==> self.memory is Some && self.registry.is_initialized())
        &&& (!self.initialized ==> self.memory is None && !self.registry.is_initialized())
    }

    /// The monitor before its one-time initialization.
    pub fn new() -> (r: Monitor)
        ensures
            r.wf(),
            !r.is_initialized(),
            r.registry().count() == 0,
            r.memory() is None,
    {
        Monitor { initialized: false, memory: None, registry: EnclaveRegistry::new() }
    }

    /// Whether `coffer_init` has completed successfully.
    pub fn initialized(&self) -> (r: bool)
        ensures
            r == self.is_initialized(),
    {
        self.initialized
    }

    /// A read-only view of the enclave registry.
    pub fn registry_ref(&self) -> (r: &EnclaveRegistry)
        ensures
            *r == self.registry(),
    {
        &self.registry
    }

    /// A read-only view of the memory subsystem, once built.
    pub fn memory_ref(&self) -> (r: Option<&MemoryManager>)
        ensures
            r is Some <==> self.memory() is Some,
            r matches Some(m) ==> self.memory() matches Some(n) && *m == n,
    {
        self.memory.as_ref()
    }

    /// Exclusive access to the enclave registry, for the platform
    /// layer's enclave lifecycle operations.
    pub fn registry_mut(&mut self) -> (r: &mut EnclaveRegistry)
        ensures
            *r == old(self).registry(),
            final(self).registry() == *final(r),
            final(self).is_initialized() == old(self).is_initialized(),
            final(self).memory() == old(self).memory(),
    {
        &mut self.registry
    }

    /// Exclusive access to the memory subsystem, for the platform
    /// layer's heap plumbing.
    pub fn memory_mut(&mut self) -> (r: Option<&mut MemoryManager>)
        ensures
            r is Some <==> old(self).memory() is Some,
            final(self).is_initialized() == old(self).is_initialized(),
            final(self).registry() == old(self).registry(),
            r matches Some(m) ==> old(self).memory() matches Some(m0) && *m == m0
                && final(self).memory() == Some(*final(m)),
            r is None ==> final(self).memory() == old(self).memory(),
    {
        match &mut self.memory {
            Some(m) => Some(m),
            None => None,
        }
    }

    /// What `coffer_init` promises.  A monitor that is already
    /// initialized denies the call and changes nothing.  Otherwise the
    /// pool geometry in `param[0]` (start) and `param[1]` (size) is
    /// validated first: bad geometry is an invalid parameter and
    /// mutates no state at all.  With valid geometry the memory
    /// subsystem comes up over the pool, then the enclave subsystem,
    /// and the latch is set.
    pub open spec fn spec_init_post(
        pre: Monitor,
        post: Monitor,
        param: [usize; 7],
        r: SbiRet,
    ) -> bool {
        &&& (pre.is_initialized() ==> {
            &&& r == (SbiRet { error: RET_ERR_DENIED, value: 0 })
            &&& post == pre
        })
        &&& (!pre.is_initialized() && !spec_valid_pool(param[0], param[1]) ==> {
            &&& r == (SbiRet { error: RET_ERR_INVALID_PARAM, value: 0 })
            &&& post == pre
        })
        &&& (!pre.is_initialized() && spec_valid_pool(param[0], param[1]) ==> {
            &&& r == (SbiRet { error: RET_SUCCESS, value: 0 })
            &&& post.is_initialized()
            &&& post.registry().is_initialized()
            &&& post.registry().count() == pre.registry().count()
            &&& post.registry().enclaves() == pre.registry().enclaves()
            &&& post.memory() matches Some(m) && {
                &&& m.pool_start() == param[0]
                &&& m.pool_size() == param[1]
                &&& m.frames() == frame_range(1, m.num_frames())
                &&& m.frames().len() == m.num_frames() - 1
                &&& m.heap_total() == FRAME_SIZE
                &&& m.heap_allocated() == 0
                &&& m.user_frames() == 0
                &&& m.owners().len() == 0
            }
        })
    }

    /// One-time initialization of the whole monitor: validate the pool
    /// geometry, bring up the memory subsystem, then the enclave
    /// subsystem.  A second call is denied; invalid geometry is
    /// rejected with no state mutated.
    pub fn coffer_init(&mut self, param: [usize; 7]) -> (r: SbiRet)
        requires
            old(self).wf(),
        ensures
            final(self).wf(),
            Monitor::spec_init_post(*old(self), *final(self), param, r),
    {
        if self.initialized {
            return SbiRet::denied();
        }
        let m = match MemoryManager::coffer_memory_init(param[0], param[1]) {
            Ok(m) => m,
            Err(e) => {
                return e;
            },
        };
        self.memory = Some(m);
        let ret = self.registry.coffer_sm_init();
        if ret.is_err() {
            return ret;
        }
        self.initialized = true;
        SbiRet::success(0)
    }

    /// What the self-test entry point promises: test 0 runs the memory
    /// subsystem's self-test with `param[1]` as the inner identifier,
    /// test 1 runs the registry's, and anything else is not supported;
    /// a monitor that was never initialized denies the memory test (the
    /// registry test denies itself).
    pub open spec fn spec_test_post(
        pre: Monitor,
        post: Monitor,
        rf_pre: RegisterFile,
        rf_post: RegisterFile,
        param: [usize; 7],
        r: SbiRet,
    ) -> bool {
        &&& post.is_initialized() == pre.is_initialized()
        &&& (param[0] == 0 ==> {
            &&& post.registry() == pre.registry()
            &&& rf_post == rf_pre
            &&& (pre.memory() is None ==> r == (SbiRet { error: RET_ERR_DENIED, value: 0 })
                && post == pre)
            &&& (pre.memory() matches Some(m1) ==> post.memory() matches Some(m2)
                && spec_memory_test_post(m1, m2, param[1], r))
        })
        &&& (param[0] == 1 ==> {
            &&& post.memory() == pre.memory()
            &&& EnclaveRegistry::spec_sm_test_post(
                pre.registry(),
                post.registry(),
                rf_pre,
                rf_post,
                r,
            )
        })
        &&& (param[0] != 0 && param[0] != 1 ==> {
            &&& r == (SbiRet { error: RET_ERR_NOT_SUPPORTED, value: 0 })
            &&& post == pre
            &&& rf_post == rf_pre
        })
    }

    /// The self-test entry point: dispatch on the test identifier in
    /// `param[0]`.
    pub fn coffer_test(&mut self, param: [usize; 7], rf: &mut RegisterFile) -> (r: SbiRet)
        requires
            old(self).wf(),
        ensures
            final(self).wf(),
            Monitor::spec_test_post(*old(self), *final(self), *old(rf), *final(rf), param, r),
    {
        let test_id = param[0];
        if test_id == 0 {
            match &mut self.memory {
                Some(m) => m.coffer_memory_test(param[1]),
                None => SbiRet::denied(),
            }
        } else if test_id == 1 {
            self.registry.coffer_sm_test(rf)
        } else {
            SbiRet::not_supported()
        }
    }
}

/// What the call dispatcher promises: each known function number
/// behaves exactly as the operation it routes to, an unknown one is not
/// supported and changes nothing, and the live register file is only
/// touched by the self-tests.
pub open spec fn spec_coffer_call_post(
    pre: Monitor,
    post: Monitor,
    rf_pre: RegisterFile,
    rf_post: RegisterFile,
    function: usize,
    param: [usize; 7],
    r: SbiRet,
) -> bool {
    &&& (function == CofferCallFunc::COFFER_INIT ==> {
        &&& Monitor::spec_init_post(pre, post, param, r)
        &&& rf_post == rf_pre
    })
    &&& (function == CofferCallFunc::COFFER_MEM_ALLOC ==> {
        &&& rf_post == rf_pre
        &&& post.is_initialized() == pre.is_initialized()
        &&& post.registry() == pre.registry()
        &&& (pre.memory() is None ==> r == (SbiRet { error: RET_ERR_DENIED, value: 0 }) && post
            == pre)
        &&& (pre.memory() matches Some(m1) ==> post.memory() matches Some(m2)
            && spec_mem_alloc_post(m1, m2, EnclaveId::Host, param[0], r))
    })
    &&& (function == CofferCallFunc::COFFER_TEST ==> Monitor::spec_test_post(
        pre,
        post,
        rf_pre,
        rf_post,
        param,
        r,
    ))
    &&& (function != CofferCallFunc::COFFER_INIT && function != CofferCallFunc::COFFER_MEM_ALLOC
        && function != CofferCallFunc::COFFER_TEST ==> {
        &&& r == (SbiRet { error: RET_ERR_NOT_SUPPORTED, value: 0 })
        &&& post == pre
        &&& rf_post == rf_pre
    })
}

/// Route one monitor call: `function` selects the operation, `param`
/// carries its fixed-width parameters, and `rf` is the live register
/// file of the trapped hart (used by the self-tests).  Memory
/// allocations are accounted to the host until a real enclave
/// identifier is threaded through the call path.
pub fn handle_coffer_call(
    mon: &mut Monitor,
    function: usize,
    param: [usize; 7],
    rf: &mut RegisterFile,
) -> (r: SbiRet)
    requires
        old(mon).wf(),
    ensures
        final(mon).wf(),
        spec_coffer_call_post(*old(mon), *final(mon), *old(rf), *final(rf), function, param, r),
{
    if function == CofferCallFunc::COFFER_INIT {
        mon.coffer_init(param)
    } else if function == CofferCallFunc::COFFER_MEM_ALLOC {
        match &mut mon.memory {
            Some(m) => m.coffer_mem_alloc(EnclaveId::Host, param[0]),
            None => SbiRet::denied(),
        }
    } else if function == CofferCallFunc::COFFER_TEST {
        mon.coffer_test(param, rf)
    } else {
        SbiRet::not_supported()
    }
}

} // verus!
