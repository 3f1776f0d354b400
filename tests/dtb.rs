use mvos::dtb::{DeviceTreeParser, DtbError, FDT_BEGIN_NODE, FDT_END, FDT_END_NODE, FDT_MAGIC, FDT_NOP, FDT_PROP};

fn word(out: &mut Vec<u8>, w: u32) {
    out.extend_from_slice(&w.to_be_bytes());
}

fn padded(out: &mut Vec<u8>, bytes: &[u8]) {
    out.extend_from_slice(bytes);
    while out.len() % 4 != 0 {
        out.push(0);
    }
}

fn prop(out: &mut Vec<u8>, name_off: u32, data: &[u8]) {
    word(out, FDT_PROP);
    word(out, data.len() as u32);
    word(out, name_off);
    padded(out, data);
}

/// Strings block: "compatible" at 0, "reg" at 11.
fn strings() -> Vec<u8> {
    b"compatible\0reg\0".to_vec()
}

fn reg_data(addr: u64, size: u64) -> Vec<u8> {
    let mut d = Vec::new();
    d.extend_from_slice(&addr.to_be_bytes());
    d.extend_from_slice(&size.to_be_bytes());
    d
}

fn blob(structure: &[u8]) -> Vec<u8> {
    let strings = strings();
    let off_struct = 40u32;
    let off_strings = off_struct + structure.len() as u32;
    let mut out = Vec::new();
    for w in [
        FDT_MAGIC,
        off_strings + strings.len() as u32,
        off_struct,
        off_strings,
        0,
        17,
        16,
        0,
        strings.len() as u32,
        structure.len() as u32,
    ] {
        word(&mut out, w);
    }
    out.extend_from_slice(structure);
    out.extend_from_slice(&strings);
    out
}

fn fw_cfg_tree(reg_first: bool) -> Vec<u8> {
    let mut s = Vec::new();
    word(&mut s, FDT_BEGIN_NODE);
    padded(&mut s, b"\0");
    word(&mut s, FDT_BEGIN_NODE);
    padded(&mut s, b"pl011@9000000\0");
    prop(&mut s, 0, b"arm,pl011\0");
    prop(&mut s, 11, &reg_data(0x0900_0000, 0x1000));
    word(&mut s, FDT_END_NODE);
    word(&mut s, FDT_NOP);
    word(&mut s, FDT_BEGIN_NODE);
    padded(&mut s, b"fw-cfg@9020000\0");
    if reg_first {
        prop(&mut s, 11, &reg_data(0x0902_0000, 0x18));
        prop(&mut s, 0, b"qemu,fw-cfg-mmio\0");
    } else {
        prop(&mut s, 0, b"qemu,fw-cfg-mmio\0");
        prop(&mut s, 11, &reg_data(0x0902_0000, 0x18));
    }
    word(&mut s, FDT_END_NODE);
    word(&mut s, FDT_END_NODE);
    word(&mut s, FDT_END);
    blob(&s)
}

#[test]
fn dtb_header_is_decoded() {
    let p = DeviceTreeParser::new(fw_cfg_tree(false)).unwrap();
    assert_eq!(p.header.magic, 0xd00dfeed);
    assert_eq!(p.header.off_dt_struct, 40);
    assert_eq!(p.struct_block, 40);
    assert_eq!(p.header.version, 17);
    assert_eq!(p.get_string(0), b"compatible".to_vec());
    assert_eq!(p.get_string(11), b"reg".to_vec());
    assert_eq!(p.get_string(u32::MAX), Vec::<u8>::new());
    assert_eq!(p.read_string_at(48), b"".to_vec());
}

#[test]
fn dtb_refuses_bad_blobs() {
    assert_eq!(DeviceTreeParser::new(vec![0xd0, 0x0d, 0xfe, 0xed]).unwrap_err(), DtbError::Truncated);
    let mut bad = fw_cfg_tree(false);
    bad[0] = 0;
    assert_eq!(DeviceTreeParser::new(bad).unwrap_err(), DtbError::InvalidMagic);
}

#[test]
fn dtb_finds_fw_cfg_window() {
    let p = DeviceTreeParser::new(fw_cfg_tree(false)).unwrap();
    assert_eq!(p.find_ramfb(), Some((0x0902_0000, 0x18)));
}

#[test]
fn dtb_reg_before_compatible_is_not_taken() {
    let p = DeviceTreeParser::new(fw_cfg_tree(true)).unwrap();
    assert_eq!(p.find_ramfb(), None);
}

#[test]
fn dtb_without_fw_cfg_or_with_bad_token() {
    let mut s = Vec::new();
    word(&mut s, FDT_BEGIN_NODE);
    padded(&mut s, b"\0");
    prop(&mut s, 11, &reg_data(1, 2));
    word(&mut s, FDT_END_NODE);
    word(&mut s, FDT_END);
    assert_eq!(DeviceTreeParser::new(blob(&s)).unwrap().find_ramfb(), None);

    let mut t = Vec::new();
    word(&mut t, 0x7);
    assert_eq!(DeviceTreeParser::new(blob(&t)).unwrap().find_ramfb(), None);
}

#[test]
fn dtb_align_ptr() {
    let p = DeviceTreeParser::new(fw_cfg_tree(false)).unwrap();
    assert_eq!(p.align_ptr(0), 0);
    assert_eq!(p.align_ptr(1), 4);
    assert_eq!(p.align_ptr(4), 4);
    assert_eq!(p.align_ptr(7), 8);
}
