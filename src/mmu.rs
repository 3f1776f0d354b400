//! MMU bring-up: memory attributes, the kernel-half mapping, translation
//! control, and finally the enable bit.
use vstd::prelude::*;
use crate::kernel::KernelContext;
use crate::paging::{identity_map, kernel_map, translate_spec};
use crate::sysregs::{SysReg, SystemRegisters};

verus! {

/// Attribute 0: normal memory, write-back cacheable.
pub const MAIR_NORMAL: u64 = 0xFF;

/// Attribute 1: normal memory, non-cacheable.
pub const MAIR_NORMAL_NC: u64 = 0x44;

/// Attribute 2: device memory, nGnRnE.
pub const MAIR_DEVICE_NGNRNE: u64 = 0x00;

/// Attribute 3: device memory, nGnRE.
pub const MAIR_DEVICE_NGNRE: u64 = 0x04;

/// TCR fields that bring-up rewrites: IPS [34:32], TG1 [31:30], SH1
/// [29:28], ORGN1 [27:26], IRGN1 [25:24].
pub const TCR_REWRITTEN: u64 = 0x7_FF00_0000;

/// TG1 = 4 KiB granule, SH1 = inner shareable, ORGN1 = IRGN1 = write-back
/// write-allocate.
pub const TCR_KERNEL_HALF: u64 = 0xB500_0000;

/// HCR_EL2.TVM: traps writes to the virtual-memory control registers.
pub const HCR_TVM: u64 = 1 << 26;

/// SCTLR_EL1.M: translation enabled.
pub const SCTLR_MMU_ENABLE: u64 = 1;

/// The four attributes, each in its 8-bit lane.
pub open spec fn mair_value() -> u64 {
    MAIR_NORMAL | (MAIR_NORMAL_NC << 8u64) | (MAIR_DEVICE_NGNRNE << 16u64) | (
    MAIR_DEVICE_NGNRE << 24u64)
}

/// TCR with its cacheability, shareability and granule fields rewritten and
/// the physical address size taken from the memory-model feature register.
pub open spec fn tcr_configured(tcr: u64, mmfr0: u64) -> u64 {
    (tcr & !TCR_REWRITTEN) | ((mmfr0 & 0x7) << 32u64) | TCR_KERNEL_HALF
}

/// Registers after `mmu_init`: attributes, translation control, the
/// hypervisor trap cleared, and the enable bit set; all else as read.
pub open spec fn mmu_configured(r: SystemRegisters) -> SystemRegisters {
    SystemRegisters {
        mair_el1: mair_value(),
        tcr_el1: tcr_configured(r.tcr_el1, r.id_aa64mmfr0_el1),
        hcr_el2: r.hcr_el2 & !HCR_TVM,
        sctlr_el1: r.sctlr_el1 | SCTLR_MMU_ENABLE,
        ..r
    }
}

/// Memory-attribute register value with the four attributes in lanes 0..3.
pub fn mair_attributes() -> (r: u64)
    ensures
        r == mair_value(),
{
    MAIR_NORMAL | (MAIR_NORMAL_NC << 8) | (MAIR_DEVICE_NGNRNE << 16) | (MAIR_DEVICE_NGNRE << 24)
}

impl KernelContext {
    /// Program the attributes, build and install the kernel-half mapping,
    /// rewrite translation control, clear the hypervisor trap and, as the
    /// last write, enable translation.
    pub fn mmu_init(&mut self)
        requires
            old(self).wf(),
        ensures
            final(self).wf(),
            final(self).regs == mmu_configured(old(self).regs),
            final(self).bus@ == old(self).bus@,
            final(self).ticks == old(self).ticks,
            final(self).writes@ == old(self).writes@ + seq![
                SysReg::Mair,
                SysReg::Ttbr1,
                SysReg::Tcr,
                SysReg::Hcr,
                SysReg::Sctlr,
            ],
            final(self).kernel_root matches Some(root) && root.wf() && forall|va: u64|
                #[trigger] translate_spec(root@, va) == kernel_map(va),
    {
        self.regs.mair_el1 = mair_attributes();
        self.writes = Ghost(self.writes@.push(SysReg::Mair));
        self.kernel_root = Some(identity_map());
        self.writes = Ghost(self.writes@.push(SysReg::Ttbr1));

        let tcr = self.regs.tcr_el1;
        let hcr = self.regs.hcr_el2;
        let sctlr = self.regs.sctlr_el1;
        let mmfr0 = self.regs.id_aa64mmfr0_el1;

        let tcr = (tcr & !TCR_REWRITTEN) | ((mmfr0 & 0x7) << 32) | TCR_KERNEL_HALF;
        let hcr = hcr & !HCR_TVM;
        let sctlr = sctlr | SCTLR_MMU_ENABLE;

        self.regs.tcr_el1 = tcr;
        self.writes = Ghost(self.writes@.push(SysReg::Tcr));
        self.regs.hcr_el2 = hcr;
        self.writes = Ghost(self.writes@.push(SysReg::Hcr));
        // Translation is enabled by the last write.
        self.regs.sctlr_el1 = sctlr;
        self.writes = Ghost(self.writes@.push(SysReg::Sctlr));
        assert(self.writes@ =~= old(self).writes@ + seq![
            SysReg::Mair,
            SysReg::Ttbr1,
            SysReg::Tcr,
            SysReg::Hcr,
            SysReg::Sctlr,
        ]);
    }

    /// Whether translation is enabled (SCTLR_EL1 bit 0 reads back set).
    #[allow(non_snake_case)]
    pub fn verify_MMU(&self) -> (r: bool)
        ensures
            r == (self.regs.sctlr_el1 & SCTLR_MMU_ENABLE != 0),
    {
        self.regs.sctlr_el1 & SCTLR_MMU_ENABLE != 0
    }
}

} // verus!
