//! The monitor as a whole: one-time initialization, the call
//! dispatcher, and the emulated instructions, end to end.

use coffer_sbi::coffer_call::{handle_coffer_call, CofferCallFunc, Monitor};
use coffer_sbi::coffer_inst::{emulate_coffer_inst, CofferInst};
use coffer_sbi::memory::FRAME_SIZE;
use coffer_sbi::message_call::handle_message_call;
use coffer_sbi::sbi::{
    RET_ERR_DENIED, RET_ERR_INVALID_PARAM, RET_ERR_NOT_SUPPORTED, RET_SUCCESS,
};
use coffer_sbi::vcpu::{Gprs, MCsr, RegisterFile, SCsr, MSTATUS_INIT, SSTATUS_INIT};

const POOL_START: usize = 0x8000_0000;
const POOL_SIZE: usize = 0x100_0000;  // 16 MiB = 8 frames
const ENTRY_PC: usize = 0x8020_0000;

fn live_register_file() -> RegisterFile {
    RegisterFile {
        gpr: Gprs {
            ra: 0x1,
            t: [0x2; 7],
            a: [0x3; 8],
            s: [0x4; 12],
            gp: 0x5,
            tp: 0x6,
            sp: 0x7,
            pc: 0x8,
        },
        fpr: [0; 32],
        scsr: SCsr {
            sstatus: 0x11,
            sscratch: 0x12,
            sepc: 0x13,
            stvec: 0x14,
            satp: 0x15,
            scause: 0x16,
            stval: 0x17,
            sip: 0x18,
            sie: 0x19,
        },
        mcsr: MCsr {
            mstatus: 0x21,
            mepc: 0x22,
            mip: 0x23,
            mie: 0x24,
            medeleg: 0x25,
            mideleg: 0x26,
        },
    }
}

fn init_params() -> [usize; 7] {
    [POOL_START, POOL_SIZE, 0, 0, 0, 0, 0]
}

#[test]
fn end_to_end_initialize_create_and_enter() {
    let mut mon = Monitor::new();
    let mut rf = live_register_file();

    // initialize the 16 MiB pool
    let r = handle_coffer_call(&mut mon, CofferCallFunc::COFFER_INIT, init_params(), &mut rf);
    assert_eq!(r.error, RET_SUCCESS);
    assert_eq!(r.value, 0);
    assert!(mon.initialized());

    // a second, identical initialization fails recoverably
    let r = handle_coffer_call(&mut mon, CofferCallFunc::COFFER_INIT, init_params(), &mut rf);
    assert_eq!(r.error, RET_ERR_DENIED);
    assert!(mon.initialized());

    // create an enclave at the entry point; it gets index 0
    let idx = mon.registry_mut().create(ENTRY_PC).unwrap();
    assert_eq!(idx, 0);
    let guest = mon.registry_ref().guest_vcpu(0, 0).unwrap();
    assert_eq!(guest.gpr.pc, ENTRY_PC);
    assert_eq!(guest.mcsr.mepc, ENTRY_PC);
    assert_eq!(guest.scsr.sstatus, SSTATUS_INIT);
    assert_eq!(guest.mcsr.mstatus, MSTATUS_INIT);
    assert_eq!(guest.gpr.a, [0; 8]);

    // entering leaves the live register file at the enclave entry
    let r = mon.registry_mut().enter(0, &mut rf);
    assert_eq!(r.error, RET_SUCCESS);
    assert_eq!(rf.gpr.pc, ENTRY_PC);
}

#[test]
fn bad_geometry_is_rejected_and_mutates_no_state() {
    let mut mon = Monitor::new();
    let mut rf = live_register_file();

    let r = handle_coffer_call(
        &mut mon,
        CofferCallFunc::COFFER_INIT,
        [0, POOL_SIZE, 0, 0, 0, 0, 0],
        &mut rf,
    );
    assert_eq!(r.error, RET_ERR_INVALID_PARAM);
    assert!(!mon.initialized());
    assert!(mon.memory_ref().is_none());
    assert_eq!(mon.registry_ref().enclave_count(), 0);

    let r = handle_coffer_call(
        &mut mon,
        CofferCallFunc::COFFER_INIT,
        [POOL_START, FRAME_SIZE + 1, 0, 0, 0, 0, 0],
        &mut rf,
    );
    assert_eq!(r.error, RET_ERR_INVALID_PARAM);
    assert!(!mon.initialized());

    // the monitor is still pristine: a correct initialization succeeds
    let r = handle_coffer_call(&mut mon, CofferCallFunc::COFFER_INIT, init_params(), &mut rf);
    assert_eq!(r.error, RET_SUCCESS);
}

#[test]
fn allocation_through_the_dispatcher() {
    let mut mon = Monitor::new();
    let mut rf = live_register_file();

    // before initialization the allocation is denied, not a fault
    let r = handle_coffer_call(
        &mut mon,
        CofferCallFunc::COFFER_MEM_ALLOC,
        [0x1000, 0, 0, 0, 0, 0, 0],
        &mut rf,
    );
    assert_eq!(r.error, RET_ERR_DENIED);

    handle_coffer_call(&mut mon, CofferCallFunc::COFFER_INIT, init_params(), &mut rf);
    let r = handle_coffer_call(
        &mut mon,
        CofferCallFunc::COFFER_MEM_ALLOC,
        [0x1000, 0, 0, 0, 0, 0, 0],
        &mut rf,
    );
    assert_eq!(r.error, RET_SUCCESS);
    assert_eq!(r.value % FRAME_SIZE, 0);
    assert!(r.value >= POOL_START && r.value < POOL_START + POOL_SIZE);
}

#[test]
fn unknown_function_numbers_are_not_supported() {
    let mut mon = Monitor::new();
    let mut rf = live_register_file();
    let r = handle_coffer_call(&mut mon, 0x42, [0; 7], &mut rf);
    assert_eq!(r.error, RET_ERR_NOT_SUPPORTED);
    assert!(!mon.initialized());
}

#[test]
fn selftests_through_the_dispatcher() {
    let mut mon = Monitor::new();
    let mut rf = live_register_file();
    handle_coffer_call(&mut mon, CofferCallFunc::COFFER_INIT, init_params(), &mut rf);

    // unknown outer and inner test identifiers
    let r = handle_coffer_call(
        &mut mon,
        CofferCallFunc::COFFER_TEST,
        [5, 0, 0, 0, 0, 0, 0],
        &mut rf,
    );
    assert_eq!(r.error, RET_ERR_NOT_SUPPORTED);
    let r = handle_coffer_call(
        &mut mon,
        CofferCallFunc::COFFER_TEST,
        [0, 9, 0, 0, 0, 0, 0],
        &mut rf,
    );
    assert_eq!(r.error, RET_ERR_NOT_SUPPORTED);

    // the registry self-test creates an enclave and stamps `a0`
    let r = handle_coffer_call(
        &mut mon,
        CofferCallFunc::COFFER_TEST,
        [1, 0, 0, 0, 0, 0, 0],
        &mut rf,
    );
    assert_eq!(r.error, RET_SUCCESS);
    assert_eq!(mon.registry_ref().enclave_count(), 1);
    assert_eq!(rf.gpr.a[0], 0x98765432);
}

#[test]
fn emulated_coffer_call_writes_the_result_registers() {
    let mut mon = Monitor::new();
    let mut rf = live_register_file();
    // a7 carries the function number, a0..a6 the parameters
    let a = [POOL_START, POOL_SIZE, 0xAA, 0xBB, 0xCC, 0xDD, 0xEE, CofferCallFunc::COFFER_INIT];
    let regs = emulate_coffer_inst(&mut mon, CofferInst::COFFER_CALL, a, &mut rf).unwrap();
    assert_eq!(regs[0], RET_SUCCESS);
    assert_eq!(regs[1], 0);
    // a2..a7 pass through untouched
    assert_eq!(&regs[2..], &a[2..]);
    assert!(mon.initialized());
}

#[test]
fn unprovided_calls_report_not_supported_and_unknown_words_decode_to_nothing() {
    let mut mon = Monitor::new();
    let mut rf = live_register_file();
    let a = [0; 8];
    for inst in [CofferInst::ENCLAVE_CALL, CofferInst::HOST_CALL, CofferInst::MESSAGE_CALL] {
        let regs = emulate_coffer_inst(&mut mon, inst, a, &mut rf).unwrap();
        assert_eq!(regs[0], RET_ERR_NOT_SUPPORTED);
        assert_eq!(regs[1], 0);
    }
    assert!(emulate_coffer_inst(&mut mon, 0x1234, a, &mut rf).is_none());
}

#[test]
fn message_calls_are_all_unsupported() {
    let r = handle_message_call(0, [0; 7]);
    assert_eq!(r.error, RET_ERR_NOT_SUPPORTED);
    let r = handle_message_call(0x99, [1, 2, 3, 4, 5, 6, 7]);
    assert_eq!(r.error, RET_ERR_NOT_SUPPORTED);
}
