//! Per-hart register state: a complete snapshot of the general-purpose
//! registers, the floating-point register bit patterns, and the tracked
//! supervisor and machine CSRs, together with the save/load operations
//! that move a live register file into and out of a snapshot.
//!
//! Hardware access is kept behind a seam: the monitor operates on a
//! [`RegisterFile`], a plain-data image of the hart's registers that the
//! caller fills from (and writes back to) the real machine.  Everything
//! here is therefore platform-independent and fully specified.

use vstd::prelude::*;

verus! {

/// `sstatus.FS` set to `Dirty` (floating-point state must be saved).
pub const SSTATUS_INIT: usize = 0b11 << 13;

/// Machine status for a fresh context: `FS = Dirty`, `MPP = Supervisor`
/// (the context runs in supervisor mode after `mret`), `SIE` set
/// (supervisor interrupts globally enabled) and `SUM` set (supervisor
/// access to user pages permitted).
pub const MSTATUS_INIT: usize = (0b11 << 13) | (0b01 << 11) | (0b1 << 1) | (0b1 << 18);

/// Machine interrupt enables for a fresh context: supervisor software,
/// machine software and supervisor external interrupts.
pub const MIE_INIT: usize = (0b1 << 1) | (0b1 << 3) | (0b1 << 9);

/// Exceptions delegated to supervisor mode for a fresh context:
/// instruction misaligned, breakpoint, load misaligned, store misaligned.
pub const MEDELEG_INIT: usize = (0b1 << 0) | (0b1 << 3) | (0b1 << 4) | (0b1 << 6);

/// Interrupts delegated to supervisor mode for a fresh context:
/// supervisor software, supervisor timer, supervisor external.
pub const MIDELEG_INIT: usize = (0b1 << 1) | (0b1 << 5) | (0b1 << 9);

/// The all-zero floating-point register bank.
pub open spec fn spec_zero_fprs() -> [u64; 32] {
    vstd::array::spec_array_fill_for_copy_type(0u64)
}

/// The general-purpose registers of one hart, as a trap frame lays them
/// out: return address, temporaries, argument registers, saved
/// registers, global pointer, thread pointer, stack pointer and program
/// counter.
#[derive(Clone, Copy, Debug, PartialEq, Eq)]
pub struct Gprs {
    /// Return address (`ra`).
    pub ra: usize,
    /// Temporary registers `t0`-`t6`.
    pub t: [usize; 7],
    /// Argument registers `a0`-`a7`.
    pub a: [usize; 8],
    /// Saved registers `s0`-`s11`.
    pub s: [usize; 12],
    /// Global pointer (`gp`).
    pub gp: usize,
    /// Thread pointer (`tp`).
    pub tp: usize,
    /// Stack pointer (`sp`).
    pub sp: usize,
    /// Program counter at which the context resumes.
    pub pc: usize,
}

impl Gprs {
    /// All general-purpose registers zero.
    pub fn zeroed() -> (r: Gprs)
        ensures
            r == Gprs::spec_zeroed(),
    {
        Gprs {
            ra: 0,
            t: [0, 0, 0, 0, 0, 0, 0],
            a: [0, 0, 0, 0, 0, 0, 0, 0],
            s: [0, 0, 0, 0, 0, 0, 0, 0, 0, 0, 0, 0],
            gp: 0,
            tp: 0,
            sp: 0,
            pc: 0,
        }
    }

    /// The all-zero register set.
    pub open spec fn spec_zeroed() -> Gprs {
        Gprs {
            ra: 0,
            t: [0, 0, 0, 0, 0, 0, 0],
            a: [0, 0, 0, 0, 0, 0, 0, 0],
            s: [0, 0, 0, 0, 0, 0, 0, 0, 0, 0, 0, 0],
            gp: 0,
            tp: 0,
            sp: 0,
            pc: 0,
        }
    }
}

/// The tracked supervisor CSRs.
#[derive(Clone, Copy, Debug, PartialEq, Eq, Structural)]
pub struct SCsr {
    /// Supervisor status.
    pub sstatus: usize,
    /// Supervisor scratch.
    pub sscratch: usize,
    /// Supervisor exception program counter.
    pub sepc: usize,
    /// Supervisor trap vector.
    pub stvec: usize,
    /// Address-translation root.
    pub satp: usize,
    /// Supervisor trap cause.
    pub scause: usize,
    /// Supervisor trap value.
    pub stval: usize,
    /// Supervisor pending interrupts.
    pub sip: usize,
    /// Supervisor enabled interrupts.
    pub sie: usize,
}

/// The tracked machine CSRs.
#[derive(Clone, Copy, Debug, PartialEq, Eq, Structural)]
pub struct MCsr {
    /// Machine status.
    pub mstatus: usize,
    /// Machine exception program counter: where `mret` resumes.
    pub mepc: usize,
    /// Machine pending interrupts.
    pub mip: usize,
    /// Machine enabled interrupts.
    pub mie: usize,
    /// Exception delegation mask.
    pub medeleg: usize,
    /// Interrupt delegation mask.
    pub mideleg: usize,
}

/// A plain-data image of one hart's live registers: the trap frame's
/// general-purpose registers, the floating-point register bit patterns,
/// and every tracked supervisor and machine CSR.  The platform layer
/// fills it from hardware before calling into the monitor and writes it
/// back to hardware afterwards.
#[derive(Clone, Copy, Debug, PartialEq, Eq)]
pub struct RegisterFile {
    /// General-purpose registers.
    pub gpr: Gprs,
    /// Raw bit patterns of the 32 double-precision registers.
    pub fpr: [u64; 32],
    /// Supervisor CSRs.
    pub scsr: SCsr,
    /// Machine CSRs.
    pub mcsr: MCsr,
}

/// A snapshot of one hart's complete register state, owned by an
/// enclave.  Floating-point support is a runtime capability: when
/// `fpr_enabled` is unset, save and load leave the floating-point
/// registers alone.
#[derive(Clone, Copy, Debug, PartialEq, Eq)]
pub struct VCpu {
    /// Saved supervisor CSRs.
    pub scsr: SCsr,
    /// Saved machine CSRs.
    pub mcsr: MCsr,
    /// Saved general-purpose registers.
    pub gpr: Gprs,
    /// Saved raw bit patterns of the 32 double-precision registers.
    pub fpr: [u64; 32],
    /// Whether this hart has floating-point state worth transferring.
    pub fpr_enabled: bool,
}

impl VCpu {
    /// The snapshot that `save_context` produces: the register file
    /// copied verbatim, with the floating-point registers taken only
    /// when the capability is enabled.
    pub open spec fn spec_save(self, rf: RegisterFile) -> VCpu {
        VCpu {
            scsr: rf.scsr,
            mcsr: rf.mcsr,
            gpr: rf.gpr,
            fpr: if self.fpr_enabled {
                rf.fpr
            } else {
                self.fpr
            },
            fpr_enabled: self.fpr_enabled,
        }
    }

    /// The register file that `load_context` produces: the snapshot
    /// written verbatim, with the floating-point registers written only
    /// when the capability is enabled.
    pub open spec fn spec_load(self, rf: RegisterFile) -> RegisterFile {
        RegisterFile {
            scsr: self.scsr,
            mcsr: self.mcsr,
            gpr: self.gpr,
            fpr: if self.fpr_enabled {
                self.fpr
            } else {
                rf.fpr
            },
        }
    }

    /// The state of a freshly constructed context for entry point
    /// `start_pc`: every register zero except the program counter, and
    /// the fixed default CSR values.
    pub open spec fn spec_init_context(start_pc: usize) -> VCpu {
        VCpu {
            scsr: SCsr {
                sstatus: SSTATUS_INIT,
                sscratch: 0,
                sepc: 0,
                stvec: 0,
                satp: 0,
                scause: 0,
                stval: 0,
                sip: 0,
                sie: 0,
            },
            mcsr: MCsr {
                mstatus: MSTATUS_INIT,
                mepc: start_pc,
                mip: 0,
                mie: MIE_INIT,
                medeleg: MEDELEG_INIT,
                mideleg: MIDELEG_INIT,
            },
            gpr: Gprs { pc: start_pc, ..Gprs::spec_zeroed() },
            fpr: spec_zero_fprs(),
            fpr_enabled: false,
        }
    }

    /// A fresh context that will start executing at `start_pc` in
    /// supervisor mode: all general-purpose and floating-point registers
    /// zeroed except the program counter, and the default CSR values
    /// (floating-point dirty, privilege-mode-on-return supervisor,
    /// supervisor interrupts enabled, supervisor access to user pages
    /// permitted, the default exception and interrupt delegations).
    pub fn init_context(start_pc: usize) -> (r: VCpu)
        ensures
            r == VCpu::spec_init_context(start_pc),
    {
        VCpu {
            scsr: SCsr {
                sstatus: SSTATUS_INIT,
                sscratch: 0,
                sepc: 0,
                stvec: 0,
                satp: 0,
                scause: 0,
                stval: 0,
                sip: 0,
                sie: 0,
            },
            mcsr: MCsr {
                mstatus: MSTATUS_INIT,
                mepc: start_pc,
                mip: 0,
                mie: MIE_INIT,
                medeleg: MEDELEG_INIT,
                mideleg: MIDELEG_INIT,
            },
            gpr: Gprs { pc: start_pc, ..Gprs::zeroed() },
            fpr: [0u64; 32],
            fpr_enabled: false,
        }
    }

    /// Turn the floating-point capability on or off; everything else is
    /// untouched.
    pub fn set_fpr_enabled(&mut self, enabled: bool)
        ensures
            *final(self) == (VCpu { fpr_enabled: enabled, ..*old(self) }),
    {
        self.fpr_enabled = enabled;
    }

    /// Copy the live general-purpose registers into the snapshot.
    fn save_gpr(&mut self, gpr: &Gprs)
        ensures
            *final(self) == (VCpu { gpr: *gpr, ..*old(self) }),
    {
        self.gpr = *gpr;
    }

    /// Write the saved general-purpose registers to the live frame.
    fn load_gpr(&self, gpr: &mut Gprs)
        ensures
            *final(gpr) == self.gpr,
    {
        *gpr = self.gpr;
    }

    /// Dump the live floating-point registers into the snapshot; a no-op
    /// when the capability is off.
    fn save_fprs(&mut self, fpr: &[u64; 32])
        ensures
            *final(self) == (VCpu {
                fpr: if old(self).fpr_enabled {
                    *fpr
                } else {
                    old(self).fpr
                },
                ..*old(self)
            }),
    {
        if self.fpr_enabled {
            self.fpr = *fpr;
        }
    }

    /// Write the saved floating-point registers to the live frame; a
    /// no-op when the capability is off.
    fn load_fprs(&self, fpr: &mut [u64; 32])
        ensures
            *final(fpr) == if self.fpr_enabled {
                self.fpr
            } else {
                *old(fpr)
            },
    {
        if self.fpr_enabled {
            *fpr = self.fpr;
        }
    }

    /// Read every tracked supervisor and machine CSR from the register
    /// file into the snapshot.
    fn save_csr(&mut self, scsr: &SCsr, mcsr: &MCsr)
        ensures
            *final(self) == (VCpu { scsr: *scsr, mcsr: *mcsr, ..*old(self) }),
    {
        self.scsr = *scsr;
        self.mcsr = *mcsr;
    }

    /// Write every tracked supervisor and machine CSR from the snapshot
    /// into the register file.
    fn load_csr(&self, scsr: &mut SCsr, mcsr: &mut MCsr)
        ensures
            *final(scsr) == self.scsr,
            *final(mcsr) == self.mcsr,
    {
        *scsr = self.scsr;
        *mcsr = self.mcsr;
    }

    /// Save a live context: copy the register file's general-purpose
    /// registers, floating-point registers (when enabled) and CSRs into
    /// this snapshot.  The caller must have quiesced traps on the hart
    /// so that the register file is a consistent image.
    pub fn save_context(&mut self, rf: &RegisterFile)
        ensures
            *final(self) == old(self).spec_save(*rf),
    {
        self.save_gpr(&rf.gpr);
        self.save_fprs(&rf.fpr);
        self.save_csr(&rf.scsr, &rf.mcsr);
    }

    /// Load a saved context: write this snapshot's general-purpose
    /// registers, floating-point registers (when enabled) and CSRs into
    /// the register file.  Loading a never-saved snapshot replays the
    /// `init_context` defaults; loading twice without an intervening
    /// save replays the same data.
    pub fn load_context(&self, rf: &mut RegisterFile)
        ensures
            *final(rf) == self.spec_load(*old(rf)),
    {
        self.load_gpr(&mut rf.gpr);
        self.load_fprs(&mut rf.fpr);
        self.load_csr(&mut rf.scsr, &mut rf.mcsr);
    }

    /// Overwrite every tracked CSR of the snapshot with a recognizable
    /// pattern, leaving the rest of the state alone; a self-test aid for
    /// exercising CSR save/load paths.
    pub fn vcpu_csr_test(&mut self)
        ensures
            *final(self) == (VCpu {
                scsr: SCsr {
                    sstatus: 0x12345678,
                    sscratch: 0x12345678,
                    sepc: 0x12345678,
                    stvec: 0x12345678,
                    satp: 0x12345678,
                    scause: 0x12345678,
                    stval: 0x12345678,
                    sip: 0x12345678,
                    sie: 0x12345678,
                },
                mcsr: MCsr {
                    mstatus: 0x12345678,
                    mepc: 0x12345678,
                    mip: 0x12345678,
                    mie: 0x12345678,
                    medeleg: 0x12345678,
                    mideleg: 0x12345678,
                },
                ..*old(self)
            }),
    {
        self.mcsr.mepc = 0x12345678;
        self.mcsr.medeleg = 0x12345678;
        self.mcsr.mideleg = 0x12345678;
        self.mcsr.mstatus = 0x12345678;
        self.mcsr.mip = 0x12345678;
        self.mcsr.mie = 0x12345678;

        self.scsr.sepc = 0x12345678;
        self.scsr.sstatus = 0x12345678;
        self.scsr.sscratch = 0x12345678;
        self.scsr.stvec = 0x12345678;
        self.scsr.satp = 0x12345678;
        self.scsr.scause = 0x12345678;
        self.scsr.sip = 0x12345678;
        self.scsr.sie = 0x12345678;
        self.scsr.stval = 0x12345678;
    }
}

/// Law: loading a snapshot onto a register file and then immediately
/// saving that register file back into the snapshot, with no intervening
/// mutation, reproduces the snapshot exactly — whether or not the
/// floating-point capability is enabled.
pub proof fn lemma_load_then_save_round_trip(v: VCpu, rf: RegisterFile)
    ensures
        v.spec_save(v.spec_load(rf)) == v,
{
}

/// Law: saving a register file into a snapshot with the floating-point
/// capability enabled and then loading that snapshot back reproduces the
/// register file exactly.
pub proof fn lemma_save_then_load_round_trip(v: VCpu, rf: RegisterFile)
    requires
        v.fpr_enabled,
    ensures
        v.spec_save(rf).spec_load(rf) == rf,
{
}

} // verus!
