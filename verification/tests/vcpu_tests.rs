//! The per-hart snapshot: fresh-context defaults and the save/load
//! round trip.

use coffer_sbi::vcpu::{
    Gprs, MCsr, RegisterFile, SCsr, VCpu, MEDELEG_INIT, MIDELEG_INIT, MIE_INIT, MSTATUS_INIT,
    SSTATUS_INIT,
};

fn live_register_file() -> RegisterFile {
    RegisterFile {
        gpr: Gprs {
            ra: 0x101,
            t: [0x201, 0x202, 0x203, 0x204, 0x205, 0x206, 0x207],
            a: [0x301, 0x302, 0x303, 0x304, 0x305, 0x306, 0x307, 0x308],
            s: [
                0x401, 0x402, 0x403, 0x404, 0x405, 0x406, 0x407, 0x408, 0x409, 0x40a, 0x40b,
                0x40c,
            ],
            gp: 0x501,
            tp: 0x502,
            sp: 0x503,
            pc: 0x504,
        },
        fpr: [0xF0F0; 32],
        scsr: SCsr {
            sstatus: 0x601,
            sscratch: 0x602,
            sepc: 0x603,
            stvec: 0x604,
            satp: 0x605,
            scause: 0x606,
            stval: 0x607,
            sip: 0x608,
            sie: 0x609,
        },
        mcsr: MCsr {
            mstatus: 0x701,
            mepc: 0x702,
            mip: 0x703,
            mie: 0x704,
            medeleg: 0x705,
            mideleg: 0x706,
        },
    }
}

#[test]
fn init_context_has_the_documented_defaults() {
    let v = VCpu::init_context(0x8020_0000);
    // every register zero except the program counter
    assert_eq!(v.gpr.pc, 0x8020_0000);
    assert_eq!(v.gpr.ra, 0);
    assert_eq!(v.gpr.t, [0; 7]);
    assert_eq!(v.gpr.a, [0; 8]);
    assert_eq!(v.gpr.s, [0; 12]);
    assert_eq!(v.gpr.gp, 0);
    assert_eq!(v.gpr.tp, 0);
    assert_eq!(v.gpr.sp, 0);
    assert_eq!(v.fpr, [0u64; 32]);
    assert!(!v.fpr_enabled);
    // fixed supervisor CSR defaults: floating-point dirty, rest clear
    assert_eq!(v.scsr.sstatus, 0b11 << 13);
    assert_eq!(v.scsr.sstatus, SSTATUS_INIT);
    assert_eq!(v.scsr.sscratch, 0);
    assert_eq!(v.scsr.sepc, 0);
    assert_eq!(v.scsr.stvec, 0);
    assert_eq!(v.scsr.satp, 0);
    assert_eq!(v.scsr.scause, 0);
    assert_eq!(v.scsr.stval, 0);
    assert_eq!(v.scsr.sip, 0);
    assert_eq!(v.scsr.sie, 0);
    // fixed machine CSR defaults: FS dirty, MPP supervisor, SIE, SUM;
    // the documented interrupt enables and delegations; mepc at entry
    assert_eq!(v.mcsr.mstatus, (0b11 << 13) | (0b01 << 11) | (0b1 << 1) | (0b1 << 18));
    assert_eq!(v.mcsr.mstatus, MSTATUS_INIT);
    assert_eq!(v.mcsr.mepc, 0x8020_0000);
    assert_eq!(v.mcsr.mip, 0);
    assert_eq!(v.mcsr.mie, (1 << 1) | (1 << 3) | (1 << 9));
    assert_eq!(v.mcsr.mie, MIE_INIT);
    assert_eq!(v.mcsr.medeleg, 1 | (1 << 3) | (1 << 4) | (1 << 6));
    assert_eq!(v.mcsr.medeleg, MEDELEG_INIT);
    assert_eq!(v.mcsr.mideleg, (1 << 1) | (1 << 5) | (1 << 9));
    assert_eq!(v.mcsr.mideleg, MIDELEG_INIT);
}

#[test]
fn load_then_save_reproduces_the_snapshot_exactly() {
    let v = VCpu::init_context(0x8020_0000);
    let mut rf = live_register_file();
    v.load_context(&mut rf);
    let mut reloaded = v;
    reloaded.save_context(&rf);
    assert_eq!(reloaded, v);
}

#[test]
fn load_then_save_round_trips_with_floating_point_enabled() {
    let mut v = VCpu::init_context(0x8020_0000);
    v.set_fpr_enabled(true);
    let mut rf = live_register_file();
    v.load_context(&mut rf);
    assert_eq!(rf.fpr, [0u64; 32]);
    let mut reloaded = v;
    reloaded.save_context(&rf);
    assert_eq!(reloaded, v);
}

#[test]
fn mutating_one_live_register_changes_exactly_that_field() {
    let v = VCpu::init_context(0x8020_0000);
    let mut rf = live_register_file();
    v.load_context(&mut rf);
    rf.gpr.a[0] = 0xDEAD_BEEF;
    let mut snap = v;
    snap.save_context(&rf);
    let mut expected = v;
    expected.gpr.a[0] = 0xDEAD_BEEF;
    assert_eq!(snap, expected);
    assert_ne!(snap, v);
}

#[test]
fn loading_writes_the_snapshot_into_the_register_file() {
    let v = VCpu::init_context(0x8020_0000);
    let mut rf = live_register_file();
    v.load_context(&mut rf);
    assert_eq!(rf.gpr.pc, 0x8020_0000);
    assert_eq!(rf.gpr.a, [0; 8]);
    assert_eq!(rf.mcsr.mepc, 0x8020_0000);
    assert_eq!(rf.scsr.sstatus, SSTATUS_INIT);
    // the floating-point capability is off, so the live FPRs stay
    assert_eq!(rf.fpr, [0xF0F0; 32]);
}

#[test]
fn disabled_floating_point_save_keeps_the_old_bank() {
    let mut v = VCpu::init_context(0);
    let rf = live_register_file();
    v.save_context(&rf);
    assert_eq!(v.fpr, [0u64; 32]);
    assert_eq!(v.gpr, rf.gpr);
    assert_eq!(v.scsr, rf.scsr);
    assert_eq!(v.mcsr, rf.mcsr);

    let mut w = VCpu::init_context(0);
    w.set_fpr_enabled(true);
    w.save_context(&rf);
    assert_eq!(w.fpr, [0xF0F0; 32]);
}

#[test]
fn vcpu_csr_test_stamps_every_csr() {
    let mut v = VCpu::init_context(0x42);
    v.vcpu_csr_test();
    let p = 0x12345678;
    assert_eq!(
        v.scsr,
        SCsr {
            sstatus: p,
            sscratch: p,
            sepc: p,
            stvec: p,
            satp: p,
            scause: p,
            stval: p,
            sip: p,
            sie: p,
        }
    );
    assert_eq!(
        v.mcsr,
        MCsr { mstatus: p, mepc: p, mip: p, mie: p, medeleg: p, mideleg: p }
    );
    // the general-purpose registers are untouched
    assert_eq!(v.gpr.pc, 0x42);
}
