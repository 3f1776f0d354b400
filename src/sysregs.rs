//! The processor's system registers that the kernel programs, as plain values.
use vstd::prelude::*;

verus! {

/// Interrupt-mask bit (I) of DAIF.
pub const DAIF_IRQ_MASK: u64 = 1 << 7;

/// DAIF at reset: debug, SError, IRQ and FIQ all masked.
pub const DAIF_ALL_MASKED: u64 = 0x3C0;

/// A system register that bring-up or interrupt handling writes, in the
/// order in which the writes happen.
#[derive(Debug, Clone, Copy, PartialEq, Eq, Structural)]
pub enum SysReg {
    Vbar,
    Mair,
    Ttbr1,
    Tcr,
    Hcr,
    Sctlr,
    CntpTval,
    CntpCval,
    CntpCtl,
    Daif,
}

/// Snapshot of the system registers touched by bring-up and interrupt handling.
#[derive(Debug, Clone, Copy, PartialEq, Eq, Structural)]
pub struct SystemRegisters {
    /// Memory-attribute indirection register.
    pub mair_el1: u64,
    /// Translation-control register.
    pub tcr_el1: u64,
    /// Hypervisor-configuration register.
    pub hcr_el2: u64,
    /// System-control register; bit 0 enables translation.
    pub sctlr_el1: u64,
    /// Memory-model feature register (read only); bits [3:0] give the
    /// physical address range.
    pub id_aa64mmfr0_el1: u64,
    /// Vector-base register.
    pub vbar_el1: u64,
    /// Counter frequency in Hz (read only).
    pub cntfrq_el0: u64,
    /// Current counter value (read only).
    pub cntpct_el0: u64,
    /// Compare value of the physical timer.
    pub cntp_cval_el0: u64,
    /// Control of the physical timer: bit 0 enable, bit 1 output mask.
    pub cntp_ctl_el0: u64,
    /// Processor interrupt masks.
    pub daif: u64,
}

impl SystemRegisters {
    /// Register values at reset, for a processor that reports the given
    /// memory-model features and counter frequency.
    pub fn new(id_aa64mmfr0_el1: u64, cntfrq_el0: u64) -> (r: SystemRegisters)
        ensures
            r == (SystemRegisters {
                mair_el1: 0,
                tcr_el1: 0,
                hcr_el2: 0,
                sctlr_el1: 0,
                id_aa64mmfr0_el1,
                vbar_el1: 0,
                cntfrq_el0,
                cntpct_el0: 0,
                cntp_cval_el0: 0,
                cntp_ctl_el0: 0,
                daif: DAIF_ALL_MASKED,
            }),
    {
        SystemRegisters {
            mair_el1: 0,
            tcr_el1: 0,
            hcr_el2: 0,
            sctlr_el1: 0,
            id_aa64mmfr0_el1,
            vbar_el1: 0,
            cntfrq_el0,
            cntpct_el0: 0,
            cntp_cval_el0: 0,
            cntp_ctl_el0: 0,
            daif: DAIF_ALL_MASKED,
        }
    }
}

} // verus!
