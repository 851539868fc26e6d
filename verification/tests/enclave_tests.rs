//! The enclave registry: one-time initialization, creation, and the
//! context switches into and out of an enclave.

use coffer_sbi::enclave::{Enclave, EnclaveRegistry, EMPTY_ENCLAVE_START_PC, NUM_HART_MAX};
use coffer_sbi::enclave_id::EnclaveId;
use coffer_sbi::sbi::{RET_ERR_DENIED, RET_ERR_INVALID_PARAM, RET_SUCCESS};
use coffer_sbi::vcpu::{Gprs, MCsr, RegisterFile, SCsr, VCpu};

fn live_register_file() -> RegisterFile {
    RegisterFile {
        gpr: Gprs {
            ra: 0x111,
            t: [0x21; 7],
            a: [0x31; 8],
            s: [0x41; 12],
            gp: 0x51,
            tp: 0x52,
            sp: 0x53,
            pc: 0x54,
        },
        fpr: [7; 32],
        scsr: SCsr {
            sstatus: 0x61,
            sscratch: 0x62,
            sepc: 0x63,
            stvec: 0x64,
            satp: 0x65,
            scause: 0x66,
            stval: 0x67,
            sip: 0x68,
            sie: 0x69,
        },
        mcsr: MCsr {
            mstatus: 0x71,
            mepc: 0x72,
            mip: 0x73,
            mie: 0x74,
            medeleg: 0x75,
            mideleg: 0x76,
        },
    }
}

#[test]
fn a_new_enclave_has_one_fresh_guest_and_a_zeroed_host_shadow() {
    let e = Enclave::new(0x8020_0000);
    assert_eq!(e.eid, EnclaveId::Encl(1));
    assert_eq!(e.vcpus.len(), 1);
    assert_eq!(e.vcpus[0].gpr.pc, 0x8020_0000);
    assert_eq!(e.vcpus[0].mcsr.mepc, 0x8020_0000);
    assert_eq!(e.host_vcpu, VCpu::init_context(0));
    assert!(e.vcpus.capacity() >= NUM_HART_MAX);
}

#[test]
fn second_initialization_is_denied_and_changes_nothing() {
    let mut reg = EnclaveRegistry::new();
    let first = reg.coffer_sm_init();
    assert_eq!(first.error, RET_SUCCESS);
    assert_eq!(reg.enclave_count(), 0);
    let second = reg.coffer_sm_init();
    assert_eq!(second.error, RET_ERR_DENIED);
    assert_eq!(reg.enclave_count(), 0);
}

#[test]
fn creation_before_initialization_is_denied() {
    let mut reg = EnclaveRegistry::new();
    let r = reg.create(0x8020_0000);
    assert!(r.is_err());
    assert_eq!(r.unwrap_err().error, RET_ERR_DENIED);
    assert_eq!(reg.enclave_count(), 0);
}

#[test]
fn repeated_creation_yields_distinct_increasing_indices() {
    let mut reg = EnclaveRegistry::new();
    assert_eq!(reg.coffer_sm_init().error, RET_SUCCESS);
    let i0 = reg.create(0x8020_0000).unwrap();
    assert_eq!(i0, 0);
    assert_eq!(reg.enclave_count(), 1);
    let i1 = reg.create(0x8030_0000).unwrap();
    assert_eq!(i1, 1);
    assert_eq!(reg.enclave_count(), 2);
    let i2 = reg.create(0x8040_0000).unwrap();
    assert_eq!(i2, 2);
    assert_eq!(reg.enclave_count(), 3);
    assert!(i0 < i1 && i1 < i2);
    // each enclave keeps its own entry point
    assert_eq!(reg.guest_vcpu(0, 0).unwrap().gpr.pc, 0x8020_0000);
    assert_eq!(reg.guest_vcpu(1, 0).unwrap().gpr.pc, 0x8030_0000);
    assert_eq!(reg.guest_vcpu(2, 0).unwrap().gpr.pc, 0x8040_0000);
}

#[test]
fn entering_an_enclave_switches_host_to_guest() {
    let mut reg = EnclaveRegistry::new();
    reg.coffer_sm_init();
    let idx = reg.create(0x8020_0000).unwrap();
    let mut rf = live_register_file();
    let host_image = rf;
    let r = reg.enter(idx, &mut rf);
    assert_eq!(r.error, RET_SUCCESS);
    // the live register file now runs the guest
    assert_eq!(rf.gpr.pc, 0x8020_0000);
    assert_eq!(rf.mcsr.mepc, 0x8020_0000);
    assert_eq!(rf.gpr.a, [0; 8]);
    // the host context was shadowed verbatim
    let host = reg.host_vcpu(idx).unwrap();
    assert_eq!(host.gpr, host_image.gpr);
    assert_eq!(host.scsr, host_image.scsr);
    assert_eq!(host.mcsr, host_image.mcsr);
}

#[test]
fn exiting_restores_the_host_and_keeps_the_guest_progress() {
    let mut reg = EnclaveRegistry::new();
    reg.coffer_sm_init();
    let idx = reg.create(0x8020_0000).unwrap();
    let mut rf = live_register_file();
    let host_image = rf;
    reg.enter(idx, &mut rf);
    // the guest runs and makes progress
    rf.gpr.a[0] = 0xCAFE;
    rf.gpr.pc = 0x8020_0040;
    let r = reg.exit_enclave(idx, &mut rf);
    assert_eq!(r.error, RET_SUCCESS);
    // the host context is back
    assert_eq!(rf.gpr, host_image.gpr);
    assert_eq!(rf.scsr, host_image.scsr);
    assert_eq!(rf.mcsr, host_image.mcsr);
    // the guest snapshot holds the progress for the next entry
    let guest = reg.guest_vcpu(idx, 0).unwrap();
    assert_eq!(guest.gpr.a[0], 0xCAFE);
    assert_eq!(guest.gpr.pc, 0x8020_0040);
}

#[test]
fn out_of_range_entry_is_an_invalid_parameter_not_a_fault() {
    let mut reg = EnclaveRegistry::new();
    reg.coffer_sm_init();
    let mut rf = live_register_file();
    let before = rf;
    let r = reg.enter(3, &mut rf);
    assert_eq!(r.error, RET_ERR_INVALID_PARAM);
    assert_eq!(rf, before);
    let r = reg.exit_enclave(0, &mut rf);
    assert_eq!(r.error, RET_ERR_INVALID_PARAM);
    assert_eq!(rf, before);
}

#[test]
fn registry_selftest_exercises_save_and_load() {
    let mut reg = EnclaveRegistry::new();
    reg.coffer_sm_init();
    let mut rf = live_register_file();
    let image = rf;
    let r = reg.coffer_sm_test(&mut rf);
    assert_eq!(r.error, RET_SUCCESS);
    assert_eq!(reg.enclave_count(), 1);
    // the guest snapshot is the saved register file with `a0` stamped
    let guest = reg.guest_vcpu(0, 0).unwrap();
    assert_eq!(guest.gpr.a[0], 0x98765432);
    assert_eq!(guest.gpr.pc, image.gpr.pc);
    assert_eq!(guest.scsr, image.scsr);
    // and the live register file holds it loaded back out
    assert_eq!(rf.gpr.a[0], 0x98765432);
    assert_eq!(rf.gpr.pc, image.gpr.pc);
}

#[test]
fn registry_selftest_on_uninitialized_registry_is_denied() {
    let mut reg = EnclaveRegistry::new();
    let mut rf = live_register_file();
    let before = rf;
    let r = reg.coffer_sm_test(&mut rf);
    assert_eq!(r.error, RET_ERR_DENIED);
    assert_eq!(reg.enclave_count(), 0);
    assert_eq!(rf, before);
}

#[test]
fn enclave_entry_selftest_enters_the_new_enclave() {
    let mut reg = EnclaveRegistry::new();
    reg.coffer_sm_init();
    let mut rf = live_register_file();
    let host_image = rf;
    let r = reg.coffer_enclave_test(&mut rf);
    assert_eq!(r.error, RET_SUCCESS);
    assert_eq!(reg.enclave_count(), 1);
    assert_eq!(rf.gpr.pc, EMPTY_ENCLAVE_START_PC);
    let host = reg.host_vcpu(0).unwrap();
    assert_eq!(host.gpr, host_image.gpr);
}
