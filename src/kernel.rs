//! The kernel context: the one owner of all mutable kernel state.
use vstd::prelude::*;
use crate::exceptions::{set_exception_vectors, VectorError, VECTOR_ALIGN_MASK};
use crate::gic::{gic_initialized, irqs_unmasked, timer_armed};
use crate::mmio::{reg_value, RegisterFile};
use crate::mmu::mmu_configured;
use crate::paging::{kernel_map, translate_spec, L0Table};
use crate::sysregs::{SysReg, SystemRegisters};

verus! {

/// Everything the kernel mutates: processor registers, the device register
/// space, the tick counter and the kernel-half translation root.
pub struct KernelContext {
    pub regs: SystemRegisters,
    pub bus: RegisterFile,
    /// Milliseconds since the timer was enabled; written only by the timer
    /// interrupt.
    pub ticks: u64,
    /// The root table installed in the kernel-half translation base register.
    pub kernel_root: Option<L0Table>,
    /// The system-register writes made so far, oldest first.
    pub writes: Ghost<Seq<SysReg>>,
}

impl KernelContext {
    pub open spec fn wf(&self) -> bool {
        self.bus.wf()
    }

    /// A context before bring-up: registers at reset, an empty device
    /// space, no ticks and no translation root.
    pub fn new(regs: SystemRegisters, bus: RegisterFile) -> (r: KernelContext)
        requires
            bus.wf(),
        ensures
            r.wf(),
            r.regs == regs,
            r.bus@ == bus@,
            r.ticks == 0,
            r.kernel_root is None,
            r.writes@ == Seq::<SysReg>::empty(),
    {
        KernelContext { regs, bus, ticks: 0, kernel_root: None, writes: Ghost(Seq::empty()) }
    }

    /// Bring-up: install the vector table at `vector_base`, then the MMU,
    /// then the interrupt controller, then the timer. A misaligned vector
    /// table stops bring-up before any register is written.
    pub fn boot(&mut self, vector_base: u64) -> (r: Result<(), VectorError>)
        requires
            old(self).wf(),
        ensures
            final(self).wf(),
            vector_base & VECTOR_ALIGN_MASK != 0 ==> r == Err::<(), VectorError>(
                VectorError::Misaligned,
            ) && final(self).regs == old(self).regs && final(self).bus@ == old(self).bus@
                && final(self).ticks == old(self).ticks && final(self).kernel_root
                == old(self).kernel_root && final(self).writes@ == old(self).writes@,
            vector_base & VECTOR_ALIGN_MASK == 0 ==> {
                &&& r == Ok::<(), VectorError>(())
                &&& final(self).regs == timer_armed(
                    irqs_unmasked(
                        mmu_configured(SystemRegisters { vbar_el1: vector_base, ..old(self).regs }),
                    ),
                )
                &&& forall|a: u64| #[trigger]
                    reg_value(final(self).bus@, a) == gic_initialized(old(self).bus@, a)
                &&& final(self).ticks == old(self).ticks
                &&& final(self).writes@ == old(self).writes@ + seq![
                    SysReg::Vbar,
                    SysReg::Mair,
                    SysReg::Ttbr1,
                    SysReg::Tcr,
                    SysReg::Hcr,
                    SysReg::Sctlr,
                    SysReg::Daif,
                    SysReg::CntpTval,
                    SysReg::CntpCtl,
                ]
                &&& final(self).kernel_root matches Some(root) && root.wf() && forall|va: u64|
                    #[trigger] translate_spec(root@, va) == kernel_map(va)
            },
    {
        let installed = set_exception_vectors(&mut self.regs, vector_base);
        if installed.is_err() {
            return installed;
        }
        self.writes = Ghost(self.writes@.push(SysReg::Vbar));
        self.mmu_init();
        self.gic_init();
        self.enable_timer();
        assert(self.writes@ =~= old(self).writes@ + seq![
            SysReg::Vbar,
            SysReg::Mair,
            SysReg::Ttbr1,
            SysReg::Tcr,
            SysReg::Hcr,
            SysReg::Sctlr,
            SysReg::Daif,
            SysReg::CntpTval,
            SysReg::CntpCtl,
        ]);
        Ok(())
    }
}

} // verus!
