//! Flattened device tree: header decoding, strings, and the structure walk
//! that finds the fw_cfg device's register window.
use vstd::prelude::*;
use crate::ramfb::c_name;

verus! {

/// Magic number at the start of a device-tree blob.
pub const FDT_MAGIC: u32 = 0xd00dfeed;

pub const FDT_BEGIN_NODE: u32 = 0x1;

pub const FDT_END_NODE: u32 = 0x2;

pub const FDT_PROP: u32 = 0x3;

pub const FDT_NOP: u32 = 0x4;

pub const FDT_END: u32 = 0x9;

/// Size in bytes of the blob header.
pub const FDT_HEADER_SIZE: usize = 40;

/// The big-endian word at byte `pos` of `b`.
pub open spec fn be32_at(b: Seq<u8>, pos: int) -> u32 {
    ((b[pos] as u32) << 24u32) | ((b[pos + 1] as u32) << 16u32) | ((b[pos + 2] as u32) << 8u32) | (
    b[pos + 3] as u32)
}

/// The NUL-terminated string at byte `pos` of `b`, without its NUL; empty
/// when `pos` is past the end.
pub open spec fn c_string_at(b: Seq<u8>, pos: int) -> Seq<u8> {
    if 0 <= pos <= b.len() {
        c_name(b.subrange(pos, b.len() as int))
    } else {
        Seq::empty()
    }
}

/// `p` rounded up to a multiple of 4.
pub open spec fn align4(p: int) -> int {
    p + 3 - (p + 3) % 4
}

/// Big-endian word at `pos`, or `None` when it does not fit in `b`.
fn read_be32(b: &Vec<u8>, pos: usize) -> (r: Option<u32>)
    ensures
        pos + 4 <= b@.len() ==> r == Some(be32_at(b@, pos as int)),
        pos + 4 > b@.len() ==> r is None,
{
    if pos > b.len() || b.len() - pos < 4 {
        return None;
    }
    Some(((b[pos] as u32) << 24) | ((b[pos + 1] as u32) << 16) | ((b[pos + 2] as u32) << 8) | (
    b[pos + 3] as u32))
}

proof fn lemma_c_name_step(s: Seq<u8>)
    requires
        s.len() > 0,
        s[0] != 0,
    ensures
        c_name(s) == seq![s[0]] + c_name(s.subrange(1, s.len() as int)),
{
}

/// The NUL-terminated string at `pos` (without its NUL).
fn string_at(b: &Vec<u8>, pos: usize) -> (r: Vec<u8>)
    ensures
        r@ == c_string_at(b@, pos as int),
{
    let mut out: Vec<u8> = Vec::new();
    if pos > b.len() {
        return out;
    }
    let ghost full = b@.subrange(pos as int, b@.len() as int);
    let mut i: usize = pos;
    assert(b@.subrange(pos as int, pos as int) + c_name(full) =~= c_name(full));
    while i < b.len() && b[i] != 0
        invariant
            pos <= i <= b@.len(),
            full == b@.subrange(pos as int, b@.len() as int),
            out@ == b@.subrange(pos as int, i as int),
            c_name(full) == b@.subrange(pos as int, i as int) + c_name(
                b@.subrange(i as int, b@.len() as int),
            ),
        decreases b@.len() - i,
    {
        let ghost rest = b@.subrange(i as int, b@.len() as int);
        proof {
            lemma_c_name_step(rest);
        }
        assert(rest.subrange(1, rest.len() as int) =~= b@.subrange(i + 1, b@.len() as int));
        assert(b@.subrange(pos as int, i + 1) =~= b@.subrange(pos as int, i as int) + seq![
            b@[i as int],
        ]);
        out.push(b[i]);
        i = i + 1;
    }
    proof {
        let rest = b@.subrange(i as int, b@.len() as int);
        assert(c_name(rest) =~= Seq::<u8>::empty());
        assert(c_name(full) =~= b@.subrange(pos as int, i as int));
    }
    out
}

/// Whether two byte strings are equal.
fn bytes_equal(a: &Vec<u8>, b: &Vec<u8>) -> (r: bool)
    ensures
        r == (a@ == b@),
{
    if a.len() != b.len() {
        return false;
    }
    let mut i: usize = 0;
    while i < a.len()
        invariant
            a@.len() == b@.len(),
            i <= a@.len(),
            forall|k: int| 0 <= k < i ==> a@[k] == b@[k],
        decreases a@.len() - i,
    {
        if a[i] != b[i] {
            return false;
        }
        i = i + 1;
    }
    assert(a@ =~= b@);
    true
}

proof fn lemma_c_name_len(s: Seq<u8>)
    ensures
        c_name(s).len() <= s.len(),
    decreases s.len(),
{
    if s.len() > 0 && s[0] != 0 {
        lemma_c_name_len(s.subrange(1, s.len() as int));
    }
}

/// `align4(p + extra)` when it lies within `len`, else `None`.
fn next_aligned(len: usize, p: usize, extra: usize) -> (r: Option<usize>)
    requires
        p <= len,
    ensures
        align4(p + extra) <= len ==> r == Some(align4(p + extra) as usize),
        align4(p + extra) > len ==> r is None,
{
    if extra > len - p {
        return None;
    }
    let q = p + extra;
    let rem = q % 4;
    if rem == 0 {
        Some(q)
    } else {
        let base = q - rem;
        if len - base < 4 {
            None
        } else {
            Some(base + 4)
        }
    }
}

/// The bytes of "compatible".
pub open spec fn compatible_prop() -> Seq<u8> {
    seq![0x63u8, 0x6f, 0x6d, 0x70, 0x61, 0x74, 0x69, 0x62, 0x6c, 0x65]
}

/// The bytes of "reg".
pub open spec fn reg_prop() -> Seq<u8> {
    seq![0x72u8, 0x65, 0x67]
}

/// The bytes of "qemu,fw-cfg-mmio", the compatible string of the fw_cfg device.
pub open spec fn fw_cfg_compatible() -> Seq<u8> {
    seq![
        0x71u8, 0x65, 0x6d, 0x75, 0x2c, 0x66, 0x77, 0x2d, 0x63, 0x66, 0x67, 0x2d, 0x6d, 0x6d, 0x69,
        0x6f,
    ]
}

fn compatible_bytes() -> (r: Vec<u8>)
    ensures
        r@ == compatible_prop(),
{
    let r = vec![0x63u8, 0x6f, 0x6d, 0x70, 0x61, 0x74, 0x69, 0x62, 0x6c, 0x65];
    assert(r@ =~= compatible_prop());
    r
}

fn reg_bytes() -> (r: Vec<u8>)
    ensures
        r@ == reg_prop(),
{
    let r = vec![0x72u8, 0x65, 0x67];
    assert(r@ =~= reg_prop());
    r
}

fn fw_cfg_bytes() -> (r: Vec<u8>)
    ensures
        r@ == fw_cfg_compatible(),
{
    let r = vec![
        0x71u8, 0x65, 0x6d, 0x75, 0x2c, 0x66, 0x77, 0x2d, 0x63, 0x66, 0x67, 0x2d, 0x6d, 0x6d, 0x69,
        0x6f,
    ];
    assert(r@ =~= fw_cfg_compatible());
    r
}

/// Two big-endian words at `pos` joined into one 64-bit value, high word first.
pub open spec fn be64_at(b: Seq<u8>, pos: int) -> u64 {
    ((be32_at(b, pos) as u64) << 32u64) | (be32_at(b, pos + 4) as u64)
}

/// The walk of the structure block from `pos`: the address and size in the
/// `reg` property of the first node whose `compatible` property (seen
/// before it) names the fw_cfg device; `None` at the end token, at an
/// unknown token, or when the walk leaves the blob.
pub open spec fn fdt_scan(b: Seq<u8>, strings: int, pos: int, in_node: bool) -> Option<(u64, u64)>
    decreases b.len() - pos,
{
    if pos < 0 || pos + 4 > b.len() {
        None
    } else {
        let token = be32_at(b, pos);
        let p = pos + 4;
        if token == FDT_BEGIN_NODE {
            let next = align4(p + c_string_at(b, p).len() + 1);
            if next > b.len() {
                None
            } else {
                fdt_scan(b, strings, next, false)
            }
        } else if token == FDT_PROP {
            if p + 8 > b.len() {
                None
            } else {
                let len = be32_at(b, p);
                let name = c_string_at(b, strings + be32_at(b, p + 4));
                let data = p + 8;
                let matched = in_node || (name == compatible_prop() && c_string_at(b, data)
                    == fw_cfg_compatible());
                if name == reg_prop() && matched {
                    if data + 16 > b.len() {
                        None
                    } else {
                        Some((be64_at(b, data), be64_at(b, data + 8)))
                    }
                } else {
                    let next = align4(data + len);
                    if next > b.len() {
                        None
                    } else {
                        fdt_scan(b, strings, next, matched)
                    }
                }
            }
        } else if token == FDT_END_NODE {
            fdt_scan(b, strings, p, false)
        } else if token == FDT_NOP {
            fdt_scan(b, strings, p, in_node)
        } else {
            None
        }
    }
}

/// Header word `k` of a blob at least a header long.
fn header_word(dtb: &Vec<u8>, k: usize) -> (v: u32)
    requires
        k <= 9,
        dtb@.len() >= FDT_HEADER_SIZE,
    ensures
        v == be32_at(dtb@, 4 * k as int),
{
    match read_be32(dtb, 4 * k) {
        Some(v) => v,
        None => 0,
    }
}

/// Errors of reading a device-tree blob.
#[derive(Debug, Clone, Copy, PartialEq, Eq, Structural)]
pub enum DtbError {
    /// Shorter than a header.
    Truncated,
    /// The first word is not the device-tree magic.
    InvalidMagic,
}

/// The blob header, each field decoded from big-endian.
#[derive(Debug, Clone, Copy, PartialEq, Eq, Structural)]
pub struct FdtHeader {
    pub magic: u32,
    pub totalsize: u32,
    pub off_dt_struct: u32,
    pub off_dt_strings: u32,
    pub off_mem_rsvmap: u32,
    pub version: u32,
    pub last_comp_version: u32,
    pub boot_cpuid_phys: u32,
    pub size_dt_strings: u32,
    pub size_dt_struct: u32,
}

/// A device-tree blob and the offsets of its structure and strings blocks.
#[derive(Debug)]
pub struct DeviceTreeParser {
    pub dtb: Vec<u8>,
    pub header: FdtHeader,
    pub struct_block: usize,
    pub strings_block: usize,
}

impl DeviceTreeParser {
    /// Decode the header of `dtb`; refuse a blob shorter than the header or
    /// without the magic.
    pub fn new(dtb: Vec<u8>) -> (r: Result<DeviceTreeParser, DtbError>)
        ensures
            dtb@.len() < FDT_HEADER_SIZE ==> r == Err::<DeviceTreeParser, DtbError>(
                DtbError::Truncated,
            ),
            dtb@.len() >= FDT_HEADER_SIZE && be32_at(dtb@, 0) != FDT_MAGIC ==> r == Err::<
                DeviceTreeParser,
                DtbError,
            >(DtbError::InvalidMagic),
            dtb@.len() >= FDT_HEADER_SIZE && be32_at(dtb@, 0) == FDT_MAGIC ==> (r matches Ok(p) && {
                &&& p.dtb@ == dtb@
                &&& p.header == (FdtHeader {
                    magic: be32_at(dtb@, 0),
                    totalsize: be32_at(dtb@, 4),
                    off_dt_struct: be32_at(dtb@, 8),
                    off_dt_strings: be32_at(dtb@, 12),
                    off_mem_rsvmap: be32_at(dtb@, 16),
                    version: be32_at(dtb@, 20),
                    last_comp_version: be32_at(dtb@, 24),
                    boot_cpuid_phys: be32_at(dtb@, 28),
                    size_dt_strings: be32_at(dtb@, 32),
                    size_dt_struct: be32_at(dtb@, 36),
                })
                &&& p.struct_block == p.header.off_dt_struct
                &&& p.strings_block == p.header.off_dt_strings
            }),
    {
        if dtb.len() < FDT_HEADER_SIZE {
            return Err(DtbError::Truncated);
        }
        let magic = header_word(&dtb, 0);
        if magic != FDT_MAGIC {
            return Err(DtbError::InvalidMagic);
        }
        let header = FdtHeader {
            magic,
            totalsize: header_word(&dtb, 1),
            off_dt_struct: header_word(&dtb, 2),
            off_dt_strings: header_word(&dtb, 3),
            off_mem_rsvmap: header_word(&dtb, 4),
            version: header_word(&dtb, 5),
            last_comp_version: header_word(&dtb, 6),
            boot_cpuid_phys: header_word(&dtb, 7),
            size_dt_strings: header_word(&dtb, 8),
            size_dt_struct: header_word(&dtb, 9),
        };
        let struct_block = header.off_dt_struct as usize;
        let strings_block = header.off_dt_strings as usize;
        Ok(DeviceTreeParser { dtb, header, struct_block, strings_block })
    }

    /// The string at `offset` into the strings block.
    pub fn get_string(&self, offset: u32) -> (r: Vec<u8>)
        ensures
            r@ == c_string_at(self.dtb@, self.strings_block + offset),
    {
        let len = self.dtb.len();
        match self.strings_block.checked_add(offset as usize) {
            Some(pos) => string_at(&self.dtb, pos),
            None => {
                assert(self.strings_block + offset > len);
                Vec::new()
            },
        }
    }

    /// The string at byte `pos` of the blob.
    pub fn read_string_at(&self, pos: usize) -> (r: Vec<u8>)
        ensures
            r@ == c_string_at(self.dtb@, pos as int),
    {
        string_at(&self.dtb, pos)
    }

    /// `ptr` rounded up to the next multiple of 4.
    pub fn align_ptr(&self, ptr: usize) -> (r: usize)
        requires
            ptr + 3 <= usize::MAX,
        ensures
            r == align4(ptr as int),
            r % 4 == 0,
            ptr <= r < ptr + 4,
    {
        (ptr + 3) - (ptr + 3) % 4
    }
    /// Walk the structure block for the fw_cfg device and return the address
    /// and size of its register window.
    pub fn find_ramfb(&self) -> (r: Option<(u64, u64)>)
        ensures
            r == fdt_scan(self.dtb@, self.strings_block as int, self.struct_block as int, false),
    {
        let b = &self.dtb;
        let len = b.len();
        let mut pos = self.struct_block;
        let mut in_node = false;
        if pos > len {
            return None;
        }
        let compatible = compatible_bytes();
        let reg = reg_bytes();
        let fw_cfg = fw_cfg_bytes();
        loop
            invariant
                len == b@.len(),
                b == &self.dtb,
                pos <= len,
                compatible@ == compatible_prop(),
                reg@ == reg_prop(),
                fw_cfg@ == fw_cfg_compatible(),
                fdt_scan(b@, self.strings_block as int, pos as int, in_node) == fdt_scan(
                    b@,
                    self.strings_block as int,
                    self.struct_block as int,
                    false,
                ),
            decreases len - pos,
        {
            let ghost start = pos as int;
            let ghost was_in_node = in_node;
            let token = match read_be32(b, pos) {
                Some(t) => t,
                None => return None,
            };
            let p = pos + 4;
            if token == FDT_BEGIN_NODE {
                let name = self.read_string_at(p);
                proof {
                    lemma_c_name_len(b@.subrange(p as int, len as int));
                }
                if name.len() >= len - p {
                    return None;
                }
                match next_aligned(len, p, name.len() + 1) {
                    Some(next) => {
                        pos = next;
                        in_node = false;
                    },
                    None => return None,
                }
            } else if token == FDT_PROP {
                if len - p < 8 {
                    return None;
                }
                let prop_len = match read_be32(b, p) {
                    Some(v) => v,
                    None => return None,
                };
                let name_off = match read_be32(b, p + 4) {
                    Some(v) => v,
                    None => return None,
                };
                let prop_name = self.get_string(name_off);
                let data = p + 8;
                if bytes_equal(&prop_name, &compatible) {
                    let compat = self.read_string_at(data);
                    if bytes_equal(&compat, &fw_cfg) {
                        in_node = true;
                    }
                }
                if bytes_equal(&prop_name, &reg) && in_node {
                    if len - data < 16 {
                        return None;
                    }
                    let addr_high = match read_be32(b, data) {
                        Some(v) => v,
                        None => return None,
                    };
                    let addr_low = match read_be32(b, data + 4) {
                        Some(v) => v,
                        None => return None,
                    };
                    let size_high = match read_be32(b, data + 8) {
                        Some(v) => v,
                        None => return None,
                    };
                    let size_low = match read_be32(b, data + 12) {
                        Some(v) => v,
                        None => return None,
                    };
                    let addr = ((addr_high as u64) << 32) | (addr_low as u64);
                    let size = ((size_high as u64) << 32) | (size_low as u64);
                    return Some((addr, size));
                }
                match next_aligned(len, data, prop_len as usize) {
                    Some(next) => {
                        pos = next;
                    },
                    None => return None,
                }
            } else if token == FDT_END_NODE {
                pos = p;
                in_node = false;
            } else if token == FDT_NOP {
                pos = p;
            } else {
                return None;
            }
        }
    }
}

} // verus!
