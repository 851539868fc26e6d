//! Emulation of the monitor's custom instructions: the trap handler
//! decodes the instruction word and the trapped hart's argument
//! registers, and this module routes the call and produces the new
//! argument registers to write back.

use vstd::prelude::*;
use crate::coffer_call::{Monitor, handle_coffer_call, spec_coffer_call_post};
use crate::sbi::{SbiRet, RET_ERR_NOT_SUPPORTED};
use crate::vcpu::RegisterFile;

verus! {

/// The instruction words the monitor emulates.
pub struct CofferInst;

impl CofferInst {
    /// A monitor call from the host.
    pub const COFFER_CALL: usize = 0xC0FF_E0A7;

    /// A call made from inside an enclave.
    pub const ENCLAVE_CALL: usize = 0xC0FF_E1A7;

    /// A call from the host into an enclave.
    pub const HOST_CALL: usize = 0xC0FF_E2A7;

    /// A message between contexts.
    pub const MESSAGE_CALL: usize = 0xC0FF_E3A7;
}

/// Emulate one trapped monitor instruction.  `a` holds the trapped
/// hart's argument registers `a0`-`a7` and `rf` its live register
/// file.  A `COFFER_CALL` routes `a7` as the function number and
/// `a0`-`a6` as parameters, and the result's error and value land in
/// `a0` and `a1`.  The enclave, host and message calls are declared but
/// not yet provided, so they report "not supported"; an unrecognized
/// instruction word returns `None`, and the caller — not this library —
/// decides how to fault.
pub fn emulate_coffer_inst(mon: &mut Monitor, inst: usize, a: [usize; 8], rf: &mut RegisterFile)
    -> (r: Option<[usize; 8]>)
    requires
        old(mon).wf(),
    ensures
        final(mon).wf(),
        inst == CofferInst::COFFER_CALL ==> (r matches Some(regs) && {
            &&& spec_coffer_call_post(
                *old(mon),
                *final(mon),
                *old(rf),
                *final(rf),
                a[7],
                [a[0], a[1], a[2], a[3], a[4], a[5], a[6]],
                SbiRet { error: regs[0], value: regs[1] },
            )
            &&& regs[2] == a[2] && regs[3] == a[3] && regs[4] == a[4] && regs[5] == a[5]
                && regs[6] == a[6] && regs[7] == a[7]
        }),
        (inst == CofferInst::ENCLAVE_CALL || inst == CofferInst::HOST_CALL || inst
            == CofferInst::MESSAGE_CALL) ==> (r matches Some(regs) && {
            &&& regs[0] == RET_ERR_NOT_SUPPORTED && regs[1] == 0
            &&& regs[2] == a[2] && regs[3] == a[3] && regs[4] == a[4] && regs[5] == a[5]
                && regs[6] == a[6] && regs[7] == a[7]
            &&& *final(mon) == *old(mon)
            &&& *final(rf) == *old(rf)
        }),
        (inst != CofferInst::COFFER_CALL && inst != CofferInst::ENCLAVE_CALL && inst
            != CofferInst::HOST_CALL && inst != CofferInst::MESSAGE_CALL) ==> {
            &&& r is None
            &&& *final(mon) == *old(mon)
            &&& *final(rf) == *old(rf)
        },
{
    if inst == CofferInst::COFFER_CALL {
        let param = [a[0], a[1], a[2], a[3], a[4], a[5], a[6]];
        let ret = handle_coffer_call(mon, a[7], param, rf);
        Some([ret.error, ret.value, a[2], a[3], a[4], a[5], a[6], a[7]])
    } else if inst == CofferInst::ENCLAVE_CALL || inst == CofferInst::HOST_CALL || inst
        == CofferInst::MESSAGE_CALL {
        let ret = SbiRet::not_supported();
        Some([ret.error, ret.value, a[2], a[3], a[4], a[5], a[6], a[7]])
    } else {
        None
    }
}

} // verus!
