//! PCI configuration space over the memory-mapped ECAM window.
use vstd::prelude::*;
use crate::mmio::{mmio_read, mmio_write, reg_value, RegisterFile};

verus! {

/// Base of the ECAM configuration window.
pub const PCI_ECAM_BASE: u64 = 0x40_1000_0000;

/// Number of buses scanned.
pub const PCI_BUS_MAX: u32 = 256;

/// Number of slots per bus.
pub const PCI_SLOT_MAX: u32 = 32;

/// Number of functions per slot.
pub const PCI_FUNC_MAX: u32 = 8;

/// Offset of the command register.
pub const PCI_CMD_REG: u64 = 0x04;

/// Memory-space, bus-master and I/O-space enable bits of the command register.
pub const PCI_CMD_ENABLE: u64 = 0x7;

/// ECAM address of a configuration register.
pub open spec fn pci_addr(bus: u32, slot: u32, func: u32, offset: u32) -> u64 {
    PCI_ECAM_BASE | ((bus as u64) << 20u64) | ((slot as u64) << 15u64) | ((func as u64) << 12u64)
        | ((offset & 0xFFF) as u64)
}

/// ECAM address of register `offset` of function `func` in `slot` on `bus`.
pub fn pci_make_addr(bus: u32, slot: u32, func: u32, offset: u32) -> (r: u64)
    ensures
        r == pci_addr(bus, slot, func, offset),
{
    PCI_ECAM_BASE | ((bus as u64) << 20) | ((slot as u64) << 15) | ((func as u64) << 12) | ((
    offset & 0xFFF) as u64)
}

/// Address of base address register `index`, `offset` bytes into the header.
pub fn pci_get_bar(base: u64, index: u8, offset: u8) -> (r: u64)
    requires
        base + offset + index * 4 <= u64::MAX,
    ensures
        r == base + offset + index * 4,
{
    base + offset as u64 + (index as u64 * 4)
}

/// The address of a base address register and the value read there.
pub fn debug_read_bar(bus: &RegisterFile, base: u64, index: u8, offset: u8) -> (r: (u64, u64))
    requires
        bus.wf(),
        base + offset + index * 4 <= u64::MAX,
    ensures
        r.0 == base + offset + index * 4,
        r.1 == reg_value(bus@, r.0) as u64,
{
    let addr = pci_get_bar(base, index, offset);
    let val = mmio_read(bus, addr);
    (addr, val)
}

/// Read the base address registers at indices 0, 4, ..., 24: for each, its
/// address and value.
pub fn inspect_bar(bus: &RegisterFile, base: u64, offset: u8) -> (r: Vec<(u64, u64)>)
    requires
        bus.wf(),
        base + offset + 24 * 4 <= u64::MAX,
    ensures
        r@.len() == 7,
        forall|k: int|
            0 <= k < 7 ==> #[trigger] r@[k].0 == base + offset + 16 * k && r@[k].1 == reg_value(
                bus@,
                r@[k].0,
            ) as u64,
{
    let mut out: Vec<(u64, u64)> = Vec::new();
    let mut bar_offset: u8 = 0;
    while bar_offset <= 0x18
        invariant
            bus.wf(),
            base + offset + 24 * 4 <= u64::MAX,
            bar_offset % 4 == 0,
            bar_offset <= 0x1c,
            out@.len() == bar_offset / 4,
            forall|k: int|
                0 <= k < out@.len() ==> #[trigger] out@[k].0 == base + offset + 16 * k && out@[k].1
                    == reg_value(bus@, out@[k].0) as u64,
        decreases 0x1c - bar_offset,
    {
        out.push(debug_read_bar(bus, base, bar_offset, offset));
        bar_offset = bar_offset + 4;
    }
    out
}

/// The first 16 words of a function's configuration header.
pub fn dump_pci_config(bus: &RegisterFile, base: u64) -> (r: Vec<u64>)
    requires
        bus.wf(),
        base + 0x3c <= u64::MAX,
    ensures
        r@.len() == 16,
        forall|k: int| 0 <= k < 16 ==> #[trigger] r@[k] == reg_value(bus@, (base + 4 * k) as u64) as u64,
{
    let mut out: Vec<u64> = Vec::new();
    let mut offset: u64 = 0;
    while offset < 0x40
        invariant
            bus.wf(),
            base + 0x3c <= u64::MAX,
            offset % 4 == 0,
            offset <= 0x40,
            out@.len() == offset / 4,
            forall|k: int|
                0 <= k < out@.len() ==> #[trigger] out@[k] == reg_value(bus@, (base + 4 * k) as u64) as u64,
        decreases 0x40 - offset,
    {
        out.push(mmio_read(bus, base + offset));
        offset = offset + 4;
    }
    out
}

/// Set the memory-space, bus-master and I/O enables in a function's command
/// register; whether they read back set.
pub fn pci_enable_device(bus: &mut RegisterFile, base: u64) -> (r: bool)
    requires
        old(bus).wf(),
        base + PCI_CMD_REG <= u64::MAX,
    ensures
        final(bus).wf(),
        final(bus)@ == old(bus)@.insert(
            (base + PCI_CMD_REG) as u64,
            ((reg_value(old(bus)@, (base + PCI_CMD_REG) as u64) as u64 | PCI_CMD_ENABLE) as u32),
        ),
        r == (reg_value(final(bus)@, (base + PCI_CMD_REG) as u64) as u64 & PCI_CMD_ENABLE
            == PCI_CMD_ENABLE),
{
    let cmd_before = mmio_read(bus, base + PCI_CMD_REG);
    let cmd = cmd_before | PCI_CMD_ENABLE;
    mmio_write(bus, base + PCI_CMD_REG, cmd as u32);
    let cmd_after = mmio_read(bus, base + PCI_CMD_REG);
    (cmd_after & PCI_CMD_ENABLE) == PCI_CMD_ENABLE
}

/// Whether the function at `bus_no`/`slot`/`func` carries the given vendor
/// and device ids in its first configuration word.
pub open spec fn device_at(m: Map<u64, u32>, vendor_id: u32, device_id: u32, bus_no: u32, slot: u32, func: u32) -> bool {
    let v = reg_value(m, pci_addr(bus_no, slot, func, 0)) as u64;
    (v & 0xFFFF) == vendor_id as u64 && ((v >> 16u64) & 0xFFFF) == device_id as u64
}

/// Whether (b, s, f) comes before (b2, s2, f2) in scan order.
pub open spec fn scanned_before(b: u32, s: u32, f: u32, b2: u32, s2: u32, f2: u32) -> bool {
    b < b2 || (b == b2 && s < s2) || (b == b2 && s == s2 && f < f2)
}

/// Whether (b, s, f) lies in the scanned range.
pub open spec fn in_scan_range(b: u32, s: u32, f: u32) -> bool {
    b < PCI_BUS_MAX && s < PCI_SLOT_MAX && f < PCI_FUNC_MAX
}

proof fn lemma_addr_nonzero(b: u32, s: u32, f: u32)
    ensures
        pci_addr(b, s, f, 0) != 0,
{
    let x = PCI_ECAM_BASE | ((b as u64) << 20u64) | ((s as u64) << 15u64) | ((f as u64) << 12u64)
        | ((0u32 & 0xFFF) as u64);
    assert(0x40_1000_0000u64 | x != 0) by (bit_vector);
    assert(x == 0x40_1000_0000u64 | x) by (bit_vector)
        requires
            x == 0x40_1000_0000u64 | ((b as u64) << 20u64) | ((s as u64) << 15u64) | ((f as u64)
                << 12u64) | ((0u32 & 0xFFF) as u64),
    ;
}

/// Scan buses, slots and functions in order for a function with the given
/// vendor and device ids: the configuration address of the first match, or
/// 0 when none matches.
pub fn find_pci_device(bus: &RegisterFile, vendor_id: u32, device_id: u32) -> (r: u64)
    requires
        bus.wf(),
    ensures
        r == 0 ==> forall|b: u32, s: u32, f: u32|
            in_scan_range(b, s, f) ==> !#[trigger] device_at(bus@, vendor_id, device_id, b, s, f),
        r != 0 ==> exists|b: u32, s: u32, f: u32|
            {
                &&& in_scan_range(b, s, f)
                &&& r == #[trigger] pci_addr(b, s, f, 0)
                &&& device_at(bus@, vendor_id, device_id, b, s, f)
                &&& forall|b2: u32, s2: u32, f2: u32|
                    in_scan_range(b2, s2, f2) && scanned_before(b2, s2, f2, b, s, f)
                        ==> !#[trigger] device_at(
                        bus@,
                        vendor_id,
                        device_id,
                        b2,
                        s2,
                        f2,
                    )
            },
{
    let mut b: u32 = 0;
    while b < PCI_BUS_MAX
        invariant
            bus.wf(),
            b <= PCI_BUS_MAX,
            forall|b2: u32, s2: u32, f2: u32|
                b2 < b && s2 < PCI_SLOT_MAX && f2 < PCI_FUNC_MAX ==> !#[trigger] device_at(
                    bus@,
                    vendor_id,
                    device_id,
                    b2,
                    s2,
                    f2,
                ),
        decreases PCI_BUS_MAX - b,
    {
        let mut s: u32 = 0;
        while s < PCI_SLOT_MAX
            invariant
                bus.wf(),
                b < PCI_BUS_MAX,
                s <= PCI_SLOT_MAX,
                forall|b2: u32, s2: u32, f2: u32|
                    (b2 < b || (b2 == b && s2 < s)) && s2 < PCI_SLOT_MAX && f2 < PCI_FUNC_MAX
                        ==> !#[trigger] device_at(bus@, vendor_id, device_id, b2, s2, f2),
            decreases PCI_SLOT_MAX - s,
        {
            let mut f: u32 = 0;
            while f < PCI_FUNC_MAX
                invariant
                    bus.wf(),
                    b < PCI_BUS_MAX,
                    s < PCI_SLOT_MAX,
                    f <= PCI_FUNC_MAX,
                    forall|b2: u32, s2: u32, f2: u32|
                        (b2 < b || (b2 == b && s2 < s) || (b2 == b && s2 == s && f2 < f)) && s2
                            < PCI_SLOT_MAX && f2 < PCI_FUNC_MAX ==> !#[trigger] device_at(
                            bus@,
                            vendor_id,
                            device_id,
                            b2,
                            s2,
                            f2,
                        ),
                decreases PCI_FUNC_MAX - f,
            {
                let device_address = pci_make_addr(b, s, f, 0x00);
                let vendor_device = mmio_read(bus, device_address);
                if (vendor_device & 0xFFFF) == vendor_id as u64 && (vendor_device >> 16) & 0xFFFF
                    == device_id as u64 {
                    proof {
                        lemma_addr_nonzero(b, s, f);
                        assert(device_at(bus@, vendor_id, device_id, b, s, f));
                        assert forall|b2: u32, s2: u32, f2: u32|
                            in_scan_range(b2, s2, f2) && scanned_before(b2, s2, f2, b, s, f)
                            implies !#[trigger] device_at(bus@, vendor_id, device_id, b2, s2, f2) by {
                        }
                    }
                    return device_address;
                }
                f = f + 1;
            }
            s = s + 1;
        }
        b = b + 1;
    }
    0
}

} // verus!
