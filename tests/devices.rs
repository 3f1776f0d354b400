use mvos::color::{rgb, DefaultColorScheme, MVulkanColorScheme, INFO_GREEN};
use mvos::mmio::RegisterFile;
use mvos::pci::{
    debug_read_bar, dump_pci_config, find_pci_device, inspect_bar, pci_enable_device, pci_get_bar,
    pci_make_addr,
};
use mvos::ramfb::{dma_select_control, FWCfgDmaAccess, FWCfgFile, RamFBCfg, RAMFB_FORMAT};
use mvos::random::{random, random_bible_line};
use mvos::virtio::VirtioDriver;
use mvos::allocator::align_up;
use mvos::uart::{rx_pending, uart_receive, RxBuffer, RxEcho, RX_BUF_SIZE};
use mvos::geometry::isqrt;
use mvos::gic::sleep_finished;

#[test]
fn pci_addresses() {
    assert_eq!(pci_make_addr(1, 2, 3, 0x10), 0x40_1011_3010);
    assert_eq!(pci_make_addr(0, 0, 0, 0x1FFF), 0x40_1000_0FFF);
    assert_eq!(pci_get_bar(0x1000, 2, 0x10), 0x1018);
}

#[test]
fn pci_reads() {
    let mut bus = RegisterFile::new();
    bus.write32(0x1010, 0xAAAA);
    bus.write32(0x1000 + 0x10 + 8 * 4, 0xBBBB);
    assert_eq!(debug_read_bar(&bus, 0x1000, 0, 0x10), (0x1010, 0xAAAA));
    let bars = inspect_bar(&bus, 0x1000, 0x10);
    assert_eq!(bars.len(), 7);
    assert_eq!(bars[0], (0x1010, 0xAAAA));
    assert_eq!(bars[2], (0x1030, 0xBBBB));
    assert_eq!(bars[6], (0x1010 + 24 * 4, 0));
    bus.write32(0x2000 + 0x3c, 9);
    let dump = dump_pci_config(&bus, 0x2000);
    assert_eq!(dump.len(), 16);
    assert_eq!(dump[15], 9);
    assert_eq!(dump[0], 0);
}

#[test]
fn pci_enable_sets_command_bits() {
    let mut bus = RegisterFile::new();
    bus.write32(0x3004, 0x100);
    assert!(pci_enable_device(&mut bus, 0x3000));
    assert_eq!(bus.read32(0x3004), 0x107);
}

#[test]
fn pci_scan_finds_first_match() {
    let mut bus = RegisterFile::new();
    assert_eq!(find_pci_device(&bus, 0x1af4, 0x1050), 0);
    assert_eq!(VirtioDriver::new(&bus), Err(1));
    let later = pci_make_addr(3, 4, 5, 0);
    let earlier = pci_make_addr(0, 31, 7, 0);
    bus.write32(later, 0x1050_1af4);
    bus.write32(earlier, 0x1050_1af4);
    bus.write32(pci_make_addr(0, 1, 0, 0), 0x1051_1af4);
    assert_eq!(find_pci_device(&bus, 0x1af4, 0x1050), earlier);
    assert_eq!(VirtioDriver::new(&bus), Ok(VirtioDriver { base: earlier }));
}

#[test]
fn lcg_values() {
    assert_eq!(random(0), 1013904223);
    assert_eq!(random(1), 1015568748);
    assert_eq!(random(12345), 87628868);
    assert_eq!(random(usize::MAX), 0x3c55_8d52);
}

#[test]
fn random_line_pick() {
    let none: Vec<&'static str> = Vec::new();
    assert_eq!(random_bible_line(&none, 7), None);
    let lines = vec!["a", "b", "c"];
    // random(0) = 1013904223, which is 1 modulo 3.
    assert_eq!(random_bible_line(&lines, 0), Some("b"));
    assert_eq!(random_bible_line(&lines, 1), Some(lines[1015568748 % 3]));
}

#[test]
fn colours() {
    let s = DefaultColorScheme::new();
    assert_eq!(s.info(), INFO_GREEN);
    assert_eq!(s.white(), 0xffffff);
    assert_eq!(rgb(0x12_34_56), (0x12, 0x34, 0x56));
}

#[test]
fn fw_cfg_records() {
    let f = FWCfgFile::zero();
    assert_eq!((f.size, f.select, f.reserved), (1, 1, 1));
    assert!(f.name.iter().all(|b| *b == 1));
    let mut g = FWCfgFile::zero();
    g.name = [0; 56];
    g.name[..9].copy_from_slice(b"etc/ramfb");
    assert!(g.name_is(&b"etc/ramfb".to_vec()));
    assert!(!g.name_is(&b"etc/ramf".to_vec()));
    assert!(!f.name_is(&b"etc/ramfb".to_vec()));
    let mut full = FWCfgFile::zero();
    full.name = [b'x'; 56];
    assert!(full.name_is(&vec![b'x'; 56]));

    assert_eq!(dma_select_control(0x19, 0x02), 0x0019_000A);
    let d = FWCfgDmaAccess::new(0x0019_000A, 4, 0x1122_3344_5566_7788);
    assert_eq!(
        d.to_be_bytes(),
        vec![0, 0x19, 0, 0x0A, 0, 0, 0, 4, 0x11, 0x22, 0x33, 0x44, 0x55, 0x66, 0x77, 0x88]
    );
    let c = RamFBCfg::new(0x4000_0000, 1280, 720);
    assert_eq!(c.st, 5120);
    assert_eq!(c.fmt, RAMFB_FORMAT);
    let bytes = c.to_be_bytes();
    assert_eq!(bytes.len(), 28);
    assert_eq!(&bytes[0..8], &[0, 0, 0, 0, 0x40, 0, 0, 0]);
    assert_eq!(&bytes[8..12], b"42GR");
    assert_eq!(&bytes[16..20], &1280u32.to_be_bytes());
    assert_eq!(&bytes[24..28], &5120u32.to_be_bytes());
}

#[test]
fn align_up_rounds_to_multiple() {
    assert_eq!(align_up(0, 4096), 0);
    assert_eq!(align_up(1, 4096), 4096);
    assert_eq!(align_up(4096, 4096), 4096);
    assert_eq!(align_up(4097, 8), 4104);
    assert_eq!(align_up(13, 1), 13);
}

#[test]
fn uart_receive_fills_ring_and_echoes() {
    let mut buf = RxBuffer::new();
    assert_eq!(uart_receive(&mut buf, 0x141), RxEcho::Print('A'));
    assert_eq!(uart_receive(&mut buf, 0x0d), RxEcho::Newline);
    assert_eq!(uart_receive(&mut buf, 0x7f), RxEcho::Backspace);
    assert_eq!(buf.get(0), 'A');
    assert_eq!(buf.get(1), '\r');
    assert_eq!(buf.head(), 3);
    for _ in 3..RX_BUF_SIZE {
        uart_receive(&mut buf, b'z' as u32);
    }
    assert_eq!(buf.head(), 0);
    uart_receive(&mut buf, b'q' as u32);
    assert_eq!(buf.get(0), 'q');
    assert_eq!(buf.head(), 1);
    assert!(rx_pending(0));
    assert!(!rx_pending(1 << 4));
}

#[test]
fn integer_square_root() {
    assert_eq!(isqrt(-5), 0);
    assert_eq!(isqrt(0), 0);
    assert_eq!(isqrt(1), 1);
    assert_eq!(isqrt(2), 1);
    assert_eq!(isqrt(3), 1);
    assert_eq!(isqrt(4), 2);
    assert_eq!(isqrt(15), 3);
    assert_eq!(isqrt(16), 4);
    assert_eq!(isqrt(17), 4);
    assert_eq!(isqrt(2500), 50);
    assert_eq!(isqrt(i32::MAX), 46340);
}

#[test]
fn sleep_deadline() {
    assert!(!sleep_finished(100, 150, 300));
    assert!(sleep_finished(100, 400, 300));
    assert!(sleep_finished(100, 100, 0));
    assert!(!sleep_finished(u64::MAX - 1, u64::MAX, 5));
}
