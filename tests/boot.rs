use mvos::exceptions::{
    handle_instruction_abort, handle_page_fault, set_exception_vectors, sync_current_el_spx_handler,
    InterruptFrame, KernelError, SyncException, VectorError,
};
use mvos::fault::ExceptionClass;
use mvos::gic::{GICC_EOIR, GICC_IAR};
use mvos::kernel::KernelContext;
use mvos::mmio::RegisterFile;
use mvos::mmu::mair_attributes;
use mvos::paging::{translate, PagingError, BLOCK_SIZE};
use mvos::sysregs::SystemRegisters;

const FREQ: u64 = 62_500_000;

fn context() -> KernelContext {
    KernelContext::new(SystemRegisters::new(0x5, FREQ), RegisterFile::new())
}

#[test]
fn vector_table_alignment_is_enforced() {
    let mut regs = SystemRegisters::new(0, FREQ);
    assert_eq!(set_exception_vectors(&mut regs, 0x1000_0200), Err(VectorError::Misaligned));
    assert_eq!(regs.vbar_el1, 0);
    assert_eq!(set_exception_vectors(&mut regs, 0x1000_0001), Err(VectorError::Misaligned));
    assert_eq!(regs.vbar_el1, 0);
    assert_eq!(set_exception_vectors(&mut regs, 0x1000_0800), Ok(()));
    assert_eq!(regs.vbar_el1, 0x1000_0800);
}

#[test]
fn mmu_init_programs_registers() {
    let mut k = context();
    k.regs.hcr_el2 = (1 << 26) | (1 << 31);
    k.regs.sctlr_el1 = 0x30d0_0800;
    k.regs.tcr_el1 = 0x7_FF00_0010;
    assert!(!k.verify_MMU());
    k.mmu_init();
    assert_eq!(mair_attributes(), 0x0400_44FF);
    assert_eq!(k.regs.mair_el1, 0x0400_44FF);
    assert_eq!(k.regs.tcr_el1, 0x5_B500_0010);
    assert_eq!(k.regs.hcr_el2, 1 << 31);
    assert_eq!(k.regs.sctlr_el1, 0x30d0_0801);
    assert!(k.verify_MMU());
    assert!(k.kernel_root.is_some());
}

#[test]
fn cold_boot_happy_path() {
    let mut k = context();
    k.mmu_init();
    let root = k.kernel_root.as_ref().unwrap();
    let va = (2u64 << 16) | 0xBEEF;
    assert_eq!(translate(va, root), Ok(2 * BLOCK_SIZE + 0xBEEF));
    assert_eq!(translate(1 << 29, root), Err(PagingError::L1EntryInvalid));

    k.gic_init();
    k.enable_timer();
    let regs_before = k.regs;
    let cval0 = k.regs.cntp_cval_el0;
    k.bus.write32(GICC_IAR, 30);
    for _ in 0..1000 {
        k.interrupt_handler();
    }
    assert_eq!(k.ticks, 1000);
    assert_eq!(k.regs.cntp_cval_el0, cval0 + 1000 * (FREQ / 1000));
    // Nothing else moved.
    let mut expected = regs_before;
    expected.cntp_cval_el0 = k.regs.cntp_cval_el0;
    assert_eq!(k.regs, expected);
    assert_eq!(k.bus.read32(GICC_EOIR), 30);
    assert_eq!(translate(va, k.kernel_root.as_ref().unwrap()), Ok(2 * BLOCK_SIZE + 0xBEEF));
}

#[test]
fn boot_runs_the_whole_sequence() {
    let mut k = context();
    assert_eq!(k.boot(0x4008_0800), Ok(()));
    assert_eq!(k.regs.vbar_el1, 0x4008_0800);
    assert!(k.verify_MMU());
    assert_eq!(k.regs.daif & (1 << 7), 0);
    assert_eq!(k.regs.cntp_ctl_el0 & 1, 1);
    assert_eq!(k.regs.cntp_cval_el0, FREQ / 1000);
}

#[test]
fn boot_stops_on_misaligned_vectors() {
    let mut k = context();
    let regs_before = k.regs;
    assert_eq!(k.boot(0x4008_0200), Err(VectorError::Misaligned));
    assert_eq!(k.regs, regs_before);
    assert!(k.kernel_root.is_none());
    assert!(!k.verify_MMU());
}

#[test]
fn sync_handler_routes_data_abort() {
    let esr = (0x25u64 << 26) | (1 << 25) | (1 << 24) | (1 << 6) | 0x06;
    let frame = InterruptFrame::new(0x4008_1234, esr, 0xdead_0000);
    match sync_current_el_spx_handler(&frame) {
        SyncException::DataAbort { pc, address, info, handled } => {
            assert_eq!(pc, 0x4008_1234);
            assert_eq!(address, 0xdead_0000);
            assert!(info.write_not_read);
            assert_eq!(info.get_fault_type(), "Translation fault, level 2");
            assert_eq!(handled, Err(KernelError::NotImplemented));
        }
        other => panic!("unexpected {:?}", other),
    }
}

#[test]
fn sync_handler_routes_other_classes() {
    let f = |class: u64| InterruptFrame::new(0x100, class << 26, 0x200);
    assert!(matches!(
        sync_current_el_spx_handler(&f(0x21)),
        SyncException::InstructionAbort { pc: 0x100, handled: Err(KernelError::NotImplemented) }
    ));
    assert!(matches!(sync_current_el_spx_handler(&f(0x22)), SyncException::PcAlignment { pc: 0x100 }));
    assert!(matches!(sync_current_el_spx_handler(&f(0x26)), SyncException::SpAlignment { pc: 0x100 }));
    assert!(matches!(
        sync_current_el_spx_handler(&f(0x15)),
        SyncException::Unhandled { class: ExceptionClass::SvcAarch64 }
    ));
    assert!(matches!(
        sync_current_el_spx_handler(&f(0x3F)),
        SyncException::Unhandled { class: ExceptionClass::Unknown }
    ));
    assert_eq!(handle_page_fault(0, 0, false), Err(KernelError::NotImplemented));
    assert_eq!(handle_instruction_abort(0), Err(KernelError::NotImplemented));
}

#[test]
fn no_op_slot_skips_the_instruction() {
    let mut f = InterruptFrame::new(0x4008_0000, 0, 0);
    f.x3 = 9;
    f.skip_instruction();
    assert_eq!(f.elr, 0x4008_0004);
    assert_eq!(f.x3, 9);
    let mut g = InterruptFrame::new(u64::MAX - 1, 0, 0);
    g.skip_instruction();
    assert_eq!(g.elr, 2);
}
