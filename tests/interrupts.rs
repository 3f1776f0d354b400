use mvos::gic::{
    enable_interrupt, IrqSource, GICC_CTLR, GICC_EOIR, GICC_IAR, GICC_PMR, GICD, GICD_CTLR,
    GICD_ISENABLER, GICD_ISENABLER1,
};
use mvos::kernel::KernelContext;
use mvos::mmio::{mmio_read, mmio_write, RegisterFile};
use mvos::sysregs::{SystemRegisters, DAIF_ALL_MASKED};

const FREQ: u64 = 62_500_000;

fn context() -> KernelContext {
    KernelContext::new(SystemRegisters::new(0x5, FREQ), RegisterFile::new())
}

#[test]
fn register_file_reads_what_was_written() {
    let mut bus = RegisterFile::new();
    assert_eq!(bus.read32(0x1000), 0);
    mmio_write(&mut bus, 0x1000, 0xdead_beef);
    mmio_write(&mut bus, 0x2000, 7);
    assert_eq!(mmio_read(&bus, 0x1000), 0xdead_beef);
    mmio_write(&mut bus, 0x1000, 1);
    assert_eq!(bus.read32(0x1000), 1);
    assert_eq!(bus.read32(0x2000), 7);
    assert_eq!(bus.read32(0x3000), 0);
}

#[test]
fn enable_interrupt_keeps_sibling_bits() {
    let mut bus = RegisterFile::new();
    bus.write32(GICD + 0x100, 1 << 5);
    enable_interrupt(&mut bus, 6);
    let word = bus.read32(GICD + 0x100);
    assert_eq!(word & (1 << 5), 1 << 5);
    assert_eq!(word & (1 << 6), 1 << 6);
    assert_eq!(word, (1 << 5) | (1 << 6));
}

#[test]
fn enable_interrupt_selects_word_and_bit() {
    let mut bus = RegisterFile::new();
    bus.write32(GICD + 0x104, 0x8000_0000);
    enable_interrupt(&mut bus, 33);
    assert_eq!(bus.read32(GICD + 0x104), 0x8000_0002);
    enable_interrupt(&mut bus, 95);
    assert_eq!(bus.read32(GICD + 0x108), 0x8000_0000);
    assert_eq!(bus.read32(GICD + 0x100), 0);
}

#[test]
fn gic_init_programs_controller_and_unmasks_last() {
    let mut k = context();
    // Stale state that the reset must clear.
    k.bus.write32(GICD_ISENABLER + 8, 0xffff_ffff);
    k.bus.write32(GICD_ISENABLER, 0x1);
    k.bus.write32(0x0900_0000, 0x55);
    k.gic_init();
    assert_eq!(k.bus.read32(GICD_CTLR), 1);
    assert_eq!(k.bus.read32(GICD_ISENABLER), 1 << 30);
    assert_eq!(k.bus.read32(GICD_ISENABLER1), 1 << 1);
    assert_eq!(k.bus.read32(GICD_ISENABLER + 8), 0);
    assert_eq!(k.bus.read32(GICC_PMR), 0xff);
    assert_eq!(k.bus.read32(GICC_CTLR), 1);
    assert_eq!(k.bus.read32(0x0900_0000), 0x55);
    assert_eq!(k.regs.daif, DAIF_ALL_MASKED & !(1 << 7));
    assert_eq!(k.ticks, 0);
}

#[test]
fn enable_timer_arms_one_millisecond() {
    let mut k = context();
    k.regs.cntpct_el0 = 1_000_000;
    k.regs.cntp_ctl_el0 = 0b10;
    k.enable_timer();
    assert_eq!(k.regs.cntp_cval_el0, 1_000_000 + FREQ / 1000);
    assert_eq!(k.regs.cntp_ctl_el0, 0b01);
}

#[test]
fn timer_reprogramming_does_not_drift() {
    let mut k = context();
    k.regs.cntp_cval_el0 = 123_456;
    // The current count moves on; the compare value must not follow it.
    for n in 1..=250u64 {
        k.regs.cntpct_el0 = 123_456 + n * 70_000;
        k.tick_timer();
        assert_eq!(k.regs.cntp_cval_el0, 123_456 + n * (FREQ / 1000));
    }
    assert_eq!(k.ticks, 250);
}

#[test]
fn timer_compare_value_wraps() {
    let mut k = context();
    k.regs.cntp_cval_el0 = u64::MAX;
    k.tick_timer();
    assert_eq!(k.regs.cntp_cval_el0, FREQ / 1000 - 1);
}

#[test]
fn irq_dispatch_and_end_of_interrupt() {
    let mut k = context();
    k.bus.write32(GICC_IAR, 33);
    assert_eq!(k.interrupt_handler(), IrqSource::Uart);
    assert_eq!(k.bus.read32(GICC_EOIR), 33);
    assert_eq!(k.ticks, 0);

    k.bus.write32(GICC_IAR, 0x400 | 77);
    let regs_before = k.regs;
    assert_eq!(k.interrupt_handler(), IrqSource::Unknown(77));
    assert_eq!(k.bus.read32(GICC_EOIR), 77);
    assert_eq!(k.regs, regs_before);
    assert_eq!(k.ticks, 0);

    k.bus.write32(GICC_IAR, 30);
    assert_eq!(k.interrupt_handler(), IrqSource::Timer);
    assert_eq!(k.bus.read32(GICC_EOIR), 30);
    assert_eq!(k.ticks, 1);
    assert_eq!(k.regs.cntp_cval_el0, FREQ / 1000);
}

#[test]
fn gic_init_with_caller_lines() {
    let mut k = context();
    k.bus.write32(GICD_ISENABLER, 0xffff_ffff);
    k.gic_init_lines(&vec![1, 64, 65, 95]);
    assert_eq!(k.bus.read32(GICD_ISENABLER), 1 << 1);
    assert_eq!(k.bus.read32(GICD_ISENABLER1), 0);
    assert_eq!(k.bus.read32(GICD_ISENABLER + 8), (1 << 0) | (1 << 1) | (1 << 31));
    assert_eq!(k.bus.read32(GICD_CTLR), 1);
    assert_eq!(k.bus.read32(GICC_CTLR), 1);
    assert_eq!(k.bus.read32(GICC_PMR), 0xff);
    let mut none = context();
    none.gic_init_lines(&Vec::new());
    assert_eq!(none.bus.read32(GICD_ISENABLER), 0);
    assert_eq!(none.bus.read32(GICD_CTLR), 1);
}
