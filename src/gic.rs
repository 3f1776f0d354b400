//! Interrupt controller (distributor and CPU interface), the periodic
//! timer, and IRQ dispatch.
use vstd::prelude::*;
use crate::kernel::KernelContext;
use crate::mmio::{reg_value, RegisterFile};
use crate::sysregs::{SysReg, SystemRegisters, DAIF_IRQ_MASK};

verus! {

/// Distributor base address.
pub const GICD: u64 = 0x0800_0000;

/// CPU-interface base address.
pub const GICC: u64 = 0x0801_0000;

/// Distributor control register.
pub const GICD_CTLR: u64 = GICD;

/// First distributor set-enable register.
pub const GICD_ISENABLER: u64 = GICD + 0x100;

/// Second distributor set-enable register (ids 32 to 63).
pub const GICD_ISENABLER1: u64 = GICD + 0x104;

/// Number of distributor enable words cleared at reset.
pub const GICD_RESET_WORDS: u64 = 0x60;

/// CPU-interface control register.
pub const GICC_CTLR: u64 = GICC;

/// CPU-interface priority mask register.
pub const GICC_PMR: u64 = GICC + 0x4;

/// CPU-interface interrupt acknowledge register.
pub const GICC_IAR: u64 = GICC + 0xC;

/// CPU-interface end-of-interrupt register.
pub const GICC_EOIR: u64 = GICC + 0x10;

/// Interrupt id of the physical timer.
pub const TIMER_IRQ: u64 = 30;

/// Interrupt id of the UART.
pub const UART_IRQ: u64 = 33;

/// Timer interrupts per second: one tick is one millisecond.
pub const TICKS_PER_SECOND: u64 = 1000;

/// Address of the set-enable word that holds interrupt `irq`.
pub open spec fn enable_register(irq: u64) -> u64 {
    (GICD + 0x100 + (irq / 32) * 4) as u64
}

/// Bit of interrupt `irq` within its set-enable word.
pub open spec fn enable_bit(irq: u64) -> u32 {
    1u32 << ((irq % 32) as u32)
}

/// The register space after enabling `irq`: its bit is OR-ed into the
/// word as read, every other register unchanged.
pub open spec fn enable_interrupt_spec(m: Map<u64, u32>, irq: u64) -> Map<u64, u32> {
    m.insert(enable_register(irq), reg_value(m, enable_register(irq)) | enable_bit(irq))
}

/// Enable interrupt line `irq` by read-modify-write of its distributor
/// set-enable word at `0x100 + (irq / 32) * 4`, bit `irq % 32`.
pub fn enable_interrupt(bus: &mut RegisterFile, irq_num: u64)
    requires
        old(bus).wf(),
    ensures
        final(bus).wf(),
        final(bus)@ == enable_interrupt_spec(old(bus)@, irq_num),
{
    let reg = 0x100 + (irq_num / 32) * 4;
    let bit = irq_num % 32;
    let mut r = bus.read32(GICD + reg);
    r = r | (1u32 << (bit as u32));
    bus.write32(GICD + reg, r);
}

/// Read-modify-write: enabling `irq` keeps every bit that was set in any
/// register, and sets the bit of `irq` in its word.
pub proof fn lemma_enable_keeps_siblings(m: Map<u64, u32>, irq: u64, addr: u64, b: u32)
    requires
        b < 32,
    ensures
        reg_value(m, addr) & (1u32 << b) != 0 ==> reg_value(enable_interrupt_spec(m, irq), addr) & (
        1u32 << b) != 0,
        reg_value(enable_interrupt_spec(m, irq), enable_register(irq)) & enable_bit(irq) != 0,
{
    let a = enable_register(irq);
    let w = reg_value(m, a);
    let s = (irq % 32) as u32;
    assert(s < 32);
    assert(w & (1u32 << b) != 0 ==> (w | (1u32 << s)) & (1u32 << b) != 0) by (bit_vector)
        requires
            b < 32,
            s < 32,
    ;
    assert((w | (1u32 << s)) & (1u32 << s) != 0) by (bit_vector)
        requires
            s < 32,
    ;
}

/// Whether `a` is one of the distributor enable words cleared at reset.
pub open spec fn is_reset_enable_word(a: u64) -> bool {
    GICD_ISENABLER <= a < GICD_ISENABLER + GICD_RESET_WORDS * 4 && (a - GICD_ISENABLER) % 4 == 0
}

/// Device register `a` after `gic_init` on the register space `m`.
pub open spec fn gic_initialized(m: Map<u64, u32>, a: u64) -> u32 {
    if a == GICD_CTLR {
        1
    } else if a == GICC_CTLR {
        1
    } else if a == GICC_PMR {
        0xff
    } else if a == GICD_ISENABLER {
        // timer, id 30
        0x4000_0000
    } else if a == GICD_ISENABLER1 {
        // UART, id 33
        0x2
    } else if is_reset_enable_word(a) {
        0
    } else {
        reg_value(m, a)
    }
}

/// The register space after the reset writes and the distributor enable,
/// before any line is enabled.
pub open spec fn gic_reset(m: Map<u64, u32>) -> Map<u64, u32> {
    Map::new(
        |a: u64|
            m.contains_key(a) || a == GICD_CTLR || a == GICC_CTLR || a == GICC_PMR
                || is_reset_enable_word(a),
        |a: u64|
            if a == GICD_CTLR {
                1u32
            } else if a == GICC_CTLR || a == GICC_PMR || is_reset_enable_word(a) {
                0u32
            } else {
                m[a]
            },
    )
}

/// The register space after enabling each line of `lines` in order.
pub open spec fn enable_all(m: Map<u64, u32>, lines: Seq<u64>) -> Map<u64, u32>
    decreases lines.len(),
{
    if lines.len() == 0 {
        m
    } else {
        enable_interrupt_spec(enable_all(m, lines.drop_last()), lines.last())
    }
}

/// The register space after the priority mask is opened and the CPU
/// interface enabled.
pub open spec fn cpu_interface_enabled(m: Map<u64, u32>) -> Map<u64, u32> {
    let m1 = m.insert(GICC_PMR, 0xff);
    m1.insert(GICC_CTLR, reg_value(m1, GICC_CTLR) | 1)
}

/// The register space after initialising the controller with `lines`.
pub open spec fn gic_configured(m: Map<u64, u32>, lines: Seq<u64>) -> Map<u64, u32> {
    cpu_interface_enabled(enable_all(gic_reset(m), lines))
}

proof fn lemma_enable_pointwise(m1: Map<u64, u32>, m2: Map<u64, u32>, irq: u64)
    requires
        forall|a: u64| #[trigger] reg_value(m1, a) == reg_value(m2, a),
    ensures
        forall|a: u64| #[trigger]
            reg_value(enable_interrupt_spec(m1, irq), a) == reg_value(
                enable_interrupt_spec(m2, irq),
                a,
            ),
{
    let r = enable_register(irq);
    assert(reg_value(m1, r) == reg_value(m2, r));
    assert forall|a: u64| #[trigger]
        reg_value(enable_interrupt_spec(m1, irq), a) == reg_value(enable_interrupt_spec(m2, irq), a) by {
        if a != r {
            assert(reg_value(m1, a) == reg_value(m2, a));
        }
    }
}

/// Timer interval in counter ticks for a counter of frequency `freq`.
pub open spec fn tick_interval(freq: u64) -> u64 {
    freq / TICKS_PER_SECOND
}

/// `a + b` modulo 2^64.
pub open spec fn wrap_add(a: u64, b: u64) -> u64 {
    ((a + b) % 0x1_0000_0000_0000_0000) as u64
}

/// Registers after one timer tick: the compare value advances by one
/// interval from where it was, not from the current count.
pub open spec fn tick_spec(r: SystemRegisters) -> SystemRegisters {
    SystemRegisters { cntp_cval_el0: wrap_add(r.cntp_cval_el0, tick_interval(r.cntfrq_el0)), ..r }
}

/// Registers after `n` timer ticks.
pub open spec fn ticks_spec(r: SystemRegisters, n: nat) -> SystemRegisters
    decreases n,
{
    if n == 0 {
        r
    } else {
        tick_spec(ticks_spec(r, (n - 1) as nat))
    }
}

/// Drift-free reprogramming: after `n` ticks the compare value is the
/// initial one plus `n` intervals, exactly (modulo the 64-bit width of the
/// register), and the frequency is unchanged.
pub proof fn lemma_timer_drift_free(r: SystemRegisters, n: nat)
    ensures
        ticks_spec(r, n).cntfrq_el0 == r.cntfrq_el0,
        ticks_spec(r, n).cntp_cval_el0 as int == (r.cntp_cval_el0 + n * tick_interval(
            r.cntfrq_el0,
        )) % 0x1_0000_0000_0000_0000,
    decreases n,
{
    let m: int = 0x1_0000_0000_0000_0000;
    let i = tick_interval(r.cntfrq_el0) as int;
    if n == 0 {
        assert(r.cntp_cval_el0 as int % m == r.cntp_cval_el0 as int) by {
            vstd::arithmetic::div_mod::lemma_small_mod(r.cntp_cval_el0 as nat, m as nat);
        }
    } else {
        lemma_timer_drift_free(r, (n - 1) as nat);
        let prev = ticks_spec(r, (n - 1) as nat).cntp_cval_el0 as int;
        let base = r.cntp_cval_el0 + (n - 1) * i;
        assert(prev == base % m);
        vstd::arithmetic::div_mod::lemma_add_mod_noop(base, i, m);
        vstd::arithmetic::div_mod::lemma_mod_twice(base, m);
        vstd::arithmetic::div_mod::lemma_mod_twice(i, m);
        assert(i < m);
        vstd::arithmetic::div_mod::lemma_small_mod(i as nat, m as nat);
        assert((prev + i) % m == (base + i) % m);
        assert(base + i == r.cntp_cval_el0 + n * i) by (nonlinear_arith)
            requires
                base == r.cntp_cval_el0 + (n - 1) * i,
        ;
    }
}

/// Registers after IRQs are unmasked at the processor.
pub open spec fn irqs_unmasked(r: SystemRegisters) -> SystemRegisters {
    SystemRegisters { daif: r.daif & !DAIF_IRQ_MASK, ..r }
}

/// Registers after the timer is armed one interval from the current count,
/// enabled, with its output unmasked.
pub open spec fn timer_armed(r: SystemRegisters) -> SystemRegisters {
    SystemRegisters {
        cntp_cval_el0: wrap_add(r.cntpct_el0, tick_interval(r.cntfrq_el0)),
        cntp_ctl_el0: (r.cntp_ctl_el0 & !0b10u64) | 0b01,
        ..r
    }
}

/// Whether a sleep of `ms` ticks begun at tick `start` is over at tick `now`.
pub fn sleep_finished(start: u64, now: u64, ms: u64) -> (r: bool)
    ensures
        r == (now >= start + ms),
{
    now >= start && now - start >= ms
}

/// Source of a dispatched interrupt.
#[derive(Debug, Clone, Copy, PartialEq, Eq, Structural)]
pub enum IrqSource {
    /// The timer: the tick counter was advanced and the timer reprogrammed.
    Timer,
    /// The UART: its receive FIFO is to be drained by the caller.
    Uart,
    /// Any other id; only acknowledged.
    Unknown(u32),
}

/// Interrupt id field of an acknowledge register value, bits [9:0].
pub open spec fn iar_id(iar: u32) -> u32 {
    iar & 0x3FF
}

impl KernelContext {
    /// Reset the distributor and CPU interface, enable the distributor,
    /// enable each interrupt line of `lines` in order, open the priority
    /// mask, enable the CPU interface, and as the last step unmask IRQs at
    /// the processor.
    pub fn gic_init_lines(&mut self, lines: &Vec<u64>)
        requires
            old(self).wf(),
        ensures
            final(self).wf(),
            forall|a: u64| #[trigger]
                reg_value(final(self).bus@, a) == reg_value(
                    gic_configured(old(self).bus@, lines@),
                    a,
                ),
            final(self).regs == irqs_unmasked(old(self).regs),
            final(self).ticks == old(self).ticks,
            final(self).kernel_root == old(self).kernel_root,
            final(self).writes@ == old(self).writes@.push(SysReg::Daif),
    {
        let ghost m0 = self.bus@;
        // Reset
        self.bus.write32(GICD_CTLR, 0);
        let mut i: u64 = 0;
        while i < GICD_RESET_WORDS
            invariant
                self.bus.wf(),
                self.regs == old(self).regs,
                self.ticks == old(self).ticks,
                self.kernel_root == old(self).kernel_root,
                self.writes == old(self).writes,
                i <= GICD_RESET_WORDS,
                forall|a: u64| #[trigger]
                    reg_value(self.bus@, a) == if a == GICD_CTLR {
                        0
                    } else if is_reset_enable_word(a) && a < GICD_ISENABLER + i * 4 {
                        0
                    } else {
                        reg_value(m0, a)
                    },
            decreases GICD_RESET_WORDS - i,
        {
            let ghost before = self.bus@;
            self.bus.write32(GICD_ISENABLER + 4 * i, 0);
            assert forall|a: u64| #[trigger]
                reg_value(self.bus@, a) == if a == GICD_CTLR {
                    0
                } else if is_reset_enable_word(a) && a < GICD_ISENABLER + (i + 1) * 4 {
                    0
                } else {
                    reg_value(m0, a)
                } by {
                if a != GICD_ISENABLER + 4 * i {
                    assert(reg_value(self.bus@, a) == reg_value(before, a));
                    if is_reset_enable_word(a) && a < GICD_ISENABLER + (i + 1) * 4 {
                        assert(a < GICD_ISENABLER + i * 4);
                    }
                } else {
                    assert(is_reset_enable_word(a));
                }
            }
            i = i + 1;
        }
        let ghost m_loop = self.bus@;
        self.bus.write32(GICC_CTLR, 0);
        self.bus.write32(GICC_PMR, 0);

        // Enable the distributor
        let d = self.bus.read32(GICD_CTLR);
        self.bus.write32(GICD_CTLR, d | 1);
        assert(0u32 | 1u32 == 1) by (bit_vector);

        let ghost reset = gic_reset(m0);
        assert forall|a: u64| #[trigger] reg_value(self.bus@, a) == reg_value(reset, a) by {
            assert(reg_value(m_loop, a) == if a == GICD_CTLR {
                0
            } else if is_reset_enable_word(a) && a < GICD_ISENABLER + GICD_RESET_WORDS * 4 {
                0
            } else {
                reg_value(m0, a)
            });
        }

        // Enable the requested lines
        let mut k: usize = 0;
        while k < lines.len()
            invariant
                self.bus.wf(),
                self.regs == old(self).regs,
                self.ticks == old(self).ticks,
                self.kernel_root == old(self).kernel_root,
                self.writes == old(self).writes,
                reset == gic_reset(m0),
                k <= lines@.len(),
                forall|a: u64| #[trigger]
                    reg_value(self.bus@, a) == reg_value(
                        enable_all(reset, lines@.subrange(0, k as int)),
                        a,
                    ),
            decreases lines@.len() - k,
        {
            let ghost before = self.bus@;
            enable_interrupt(&mut self.bus, lines[k]);
            proof {
                let done = lines@.subrange(0, k + 1);
                assert(done.drop_last() =~= lines@.subrange(0, k as int));
                assert(done.last() == lines@[k as int]);
                lemma_enable_pointwise(
                    before,
                    enable_all(reset, lines@.subrange(0, k as int)),
                    lines@[k as int],
                );
            }
            k = k + 1;
        }
        assert(lines@.subrange(0, lines@.len() as int) =~= lines@);
        let ghost enabled = self.bus@;

        // Priority mask: let every priority through
        self.bus.write32(GICC_PMR, 0xff);

        // Enable the CPU interface
        let c = self.bus.read32(GICC_CTLR);
        self.bus.write32(GICC_CTLR, c | 1);
        proof {
            let target = enable_all(reset, lines@);
            assert forall|a: u64| #[trigger]
                reg_value(self.bus@, a) == reg_value(cpu_interface_enabled(target), a) by {
                assert(reg_value(enabled, GICC_CTLR) == reg_value(target, GICC_CTLR));
                assert(reg_value(enabled, a) == reg_value(target, a));
            }
        }

        // Unmask IRQs
        self.regs.daif = self.regs.daif & !DAIF_IRQ_MASK;
        self.writes = Ghost(self.writes@.push(SysReg::Daif));
    }

    /// Initialise the interrupt controller with this kernel's two lines:
    /// the timer (id 30) and the UART (id 33).
    pub fn gic_init(&mut self)
        requires
            old(self).wf(),
        ensures
            final(self).wf(),
            forall|a: u64| #[trigger]
                reg_value(final(self).bus@, a) == gic_initialized(old(self).bus@, a),
            final(self).regs == irqs_unmasked(old(self).regs),
            final(self).ticks == old(self).ticks,
            final(self).kernel_root == old(self).kernel_root,
            final(self).writes@ == old(self).writes@.push(SysReg::Daif),
    {
        let lines = vec![TIMER_IRQ, UART_IRQ];
        self.gic_init_lines(&lines);
        proof {
            let m0 = old(self).bus@;
            let reset = gic_reset(m0);
            assert(lines@ =~= seq![TIMER_IRQ, UART_IRQ]);
            assert(lines@.drop_last() =~= seq![TIMER_IRQ]);
            assert(seq![TIMER_IRQ].drop_last() =~= Seq::<u64>::empty());
            assert(enable_all(reset, Seq::<u64>::empty()) == reset);
            let one = enable_all(reset, seq![TIMER_IRQ]);
            assert(one == enable_interrupt_spec(reset, TIMER_IRQ));
            assert(enable_all(reset, lines@) == enable_interrupt_spec(one, UART_IRQ));
            assert(is_reset_enable_word(GICD_ISENABLER));
            assert(is_reset_enable_word(GICD_ISENABLER1));
            assert(0u32 | (1u32 << 30u32) == 0x4000_0000) by (bit_vector);
            assert(0u32 | (1u32 << 1u32) == 0x2) by (bit_vector);
            assert(0u32 | 1u32 == 1) by (bit_vector);
            assert forall|a: u64| #[trigger]
                reg_value(self.bus@, a) == gic_initialized(m0, a) by {
                assert(reg_value(self.bus@, a) == reg_value(gic_configured(m0, lines@), a));
            }
        }
    }

    /// Arm the timer to fire one interval (a millisecond) from now, enabled
    /// and with its output unmasked.
    pub fn enable_timer(&mut self)
        ensures
            final(self).regs == timer_armed(old(self).regs),
            final(self).bus == old(self).bus,
            final(self).ticks == old(self).ticks,
            final(self).kernel_root == old(self).kernel_root,
            final(self).writes@ == old(self).writes@ + seq![SysReg::CntpTval, SysReg::CntpCtl],
    {
        let cntfrq = self.regs.cntfrq_el0;
        let tval = cntfrq / TICKS_PER_SECOND;
        // Writing the down-counter sets the compare value to now + tval.
        self.regs.cntp_cval_el0 = self.regs.cntpct_el0.wrapping_add(tval);
        self.writes = Ghost(self.writes@.push(SysReg::CntpTval));
        let ctl = self.regs.cntp_ctl_el0;
        self.regs.cntp_ctl_el0 = (ctl & !0b10u64) | 0b01;
        self.writes = Ghost(self.writes@.push(SysReg::CntpCtl));
        assert(self.writes@ =~= old(self).writes@ + seq![SysReg::CntpTval, SysReg::CntpCtl]);
    }

    /// Timer interrupt: count one tick and move the compare value one
    /// interval on from its previous value.
    pub fn tick_timer(&mut self)
        ensures
            final(self).regs == tick_spec(old(self).regs),
            final(self).ticks == wrap_add(old(self).ticks, 1),
            final(self).bus == old(self).bus,
            final(self).kernel_root == old(self).kernel_root,
            final(self).writes@ == old(self).writes@.push(SysReg::CntpCval),
    {
        self.ticks = self.ticks.wrapping_add(1);
        let cntfrq = self.regs.cntfrq_el0;
        let cval0 = self.regs.cntp_cval_el0;
        self.regs.cntp_cval_el0 = cval0.wrapping_add(cntfrq / TICKS_PER_SECOND);
        self.writes = Ghost(self.writes@.push(SysReg::CntpCval));
    }

    /// IRQ entry: read the pending id, dispatch the timer, report the UART
    /// or an unknown id, and always signal end of interrupt with that id.
    pub fn interrupt_handler(&mut self) -> (r: IrqSource)
        requires
            old(self).wf(),
        ensures
            final(self).wf(),
            ({
                let id = iar_id(reg_value(old(self).bus@, GICC_IAR));
                &&& final(self).bus@ == old(self).bus@.insert(GICC_EOIR, id)
                &&& id == TIMER_IRQ ==> r == IrqSource::Timer && final(self).regs == tick_spec(
                    old(self).regs,
                ) && final(self).ticks == wrap_add(old(self).ticks, 1) && final(self).writes@
                    == old(self).writes@.push(SysReg::CntpCval)
                &&& id != TIMER_IRQ ==> final(self).regs == old(self).regs && final(self).ticks
                    == old(self).ticks && final(self).writes@ == old(self).writes@
                &&& id == UART_IRQ ==> r == IrqSource::Uart
                &&& id != TIMER_IRQ && id != UART_IRQ ==> r == IrqSource::Unknown(id)
            }),
            final(self).kernel_root == old(self).kernel_root,
    {
        let id = self.bus.read32(GICC_IAR) & 0x3FF;
        let source = if id as u64 == TIMER_IRQ {
            self.tick_timer();
            IrqSource::Timer
        } else if id as u64 == UART_IRQ {
            IrqSource::Uart
        } else {
            IrqSource::Unknown(id)
        };
        self.bus.write32(GICC_EOIR, id);
        source
    }
}

} // verus!
