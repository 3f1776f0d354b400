//! QEMU fw_cfg records used to configure the RAM framebuffer. The device
//! reads them big-endian; `to_be_bytes` gives that wire form.
use vstd::prelude::*;

verus! {

/// fw_cfg DMA control: error.
pub const QEMU_CFG_DMA_CTL_ERROR: u32 = 0x01;

/// fw_cfg DMA control: read.
pub const QEMU_CFG_DMA_CTL_READ: u32 = 0x02;

/// fw_cfg DMA control: select an item.
pub const QEMU_CFG_DMA_CTL_SELECT: u32 = 0x08;

/// fw_cfg DMA control: write.
pub const QEMU_CFG_DMA_CTL_WRITE: u32 = 0x10;

/// fw_cfg item that holds the file directory.
pub const FW_CFG_FILE_DIR: u32 = 0x19;

/// Pixel format "RG24" as a little-endian fourcc.
pub const RAMFB_FORMAT: u32 = 0x3432_4752;

/// Bytes per pixel of the framebuffer.
pub const RAMFB_BPP: u32 = 4;

/// Big-endian bytes of a 16-bit value.
pub open spec fn be16(x: u16) -> Seq<u8> {
    seq![(x >> 8u16) as u8, x as u8]
}

/// Big-endian bytes of a 32-bit value.
pub open spec fn be32(x: u32) -> Seq<u8> {
    seq![(x >> 24u32) as u8, (x >> 16u32) as u8, (x >> 8u32) as u8, x as u8]
}

/// Big-endian bytes of a 64-bit value.
pub open spec fn be64(x: u64) -> Seq<u8> {
    be32((x >> 32u64) as u32) + be32(x as u32)
}

fn push_be32(out: &mut Vec<u8>, x: u32)
    ensures
        final(out)@ == old(out)@ + be32(x),
{
    out.push((x >> 24) as u8);
    out.push((x >> 16) as u8);
    out.push((x >> 8) as u8);
    out.push(x as u8);
    assert(final(out)@ =~= old(out)@ + be32(x));
}

fn push_be64(out: &mut Vec<u8>, x: u64)
    ensures
        final(out)@ == old(out)@ + be64(x),
{
    push_be32(out, (x >> 32) as u32);
    push_be32(out, x as u32);
    assert(final(out)@ =~= old(out)@ + be64(x));
}

/// An entry of the fw_cfg file directory.
#[derive(Debug, Clone, Copy)]
pub struct FWCfgFile {
    pub size: u32,
    pub select: u16,
    pub reserved: u16,
    pub name: [u8; 56],
}

/// The bytes of a NUL-terminated name up to its first NUL, or all of them
/// when there is none.
pub open spec fn c_name(name: Seq<u8>) -> Seq<u8>
    decreases name.len(),
{
    if name.len() == 0 {
        name
    } else if name[0] == 0 {
        Seq::empty()
    } else {
        seq![name[0]] + c_name(name.subrange(1, name.len() as int))
    }
}

/// The fw_cfg name of the framebuffer configuration file, "etc/ramfb".
pub open spec fn ramfb_file_name() -> Seq<u8> {
    seq![0x65u8, 0x74, 0x63, 0x2f, 0x72, 0x61, 0x6d, 0x66, 0x62]
}

impl FWCfgFile {
    /// A directory entry filled with a marker byte, to be overwritten by
    /// the device.
    pub fn zero() -> (r: FWCfgFile)
        ensures
            r.size == 1,
            r.select == 1,
            r.reserved == 1,
            forall|i: int| 0 <= i < 56 ==> #[trigger] r.name@[i] == 1u8,
    {
        FWCfgFile { size: 1, select: 1, reserved: 1, name: [1u8; 56] }
    }

    /// Whether this entry's name, up to its first NUL, is `wanted`.
    pub fn name_is(&self, wanted: &Vec<u8>) -> (r: bool)
        ensures
            r == (c_name(self.name@) == wanted@),
    {
        let ghost full = self.name@;
        let mut i: usize = 0;
        assert(full.subrange(0, 56) =~= full);
        assert(full.subrange(0, 0) + c_name(full) =~= c_name(full));
        while i < 56 && self.name[i] != 0
            invariant
                0 <= i <= 56,
                full == self.name@,
                full.len() == 56,
                forall|k: int| 0 <= k < i ==> full[k] != 0,
                c_name(full) == full.subrange(0, i as int) + c_name(
                    full.subrange(i as int, 56),
                ),
            decreases 56 - i,
        {
            let ghost rest = full.subrange(i as int, 56);
            assert(rest.subrange(1, rest.len() as int) =~= full.subrange(i + 1, 56));
            assert(full.subrange(0, i + 1) =~= full.subrange(0, i as int) + seq![full[i as int]]);
            i = i + 1;
        }
        proof {
            if i < 56 {
                assert(c_name(full.subrange(i as int, 56)) =~= Seq::<u8>::empty());
            } else {
                assert(c_name(full.subrange(56, 56)) =~= Seq::<u8>::empty());
            }
            assert(c_name(full) =~= full.subrange(0, i as int));
        }
        if wanted.len() != i {
            return false;
        }
        let mut j: usize = 0;
        while j < i
            invariant
                j <= i <= 56,
                wanted@.len() == i,
                full == self.name@,
                c_name(full) == full.subrange(0, i as int),
                forall|k: int| 0 <= k < j ==> full[k] == wanted@[k],
            decreases i - j,
        {
            if self.name[j] != wanted[j] {
                assert(c_name(full)[j as int] != wanted@[j as int]);
                return false;
            }
            j = j + 1;
        }
        assert(c_name(full) =~= wanted@);
        true
    }
}

/// A fw_cfg DMA request: control word, length and guest address.
#[derive(Debug, Clone, Copy, PartialEq, Eq, Structural)]
pub struct FWCfgDmaAccess {
    pub control: u32,
    pub len: u32,
    pub addr: u64,
}

impl FWCfgDmaAccess {
    /// A request with the given control word, length and address.
    pub fn new(control: u32, len: u32, addr: u64) -> (r: FWCfgDmaAccess)
        ensures
            r == (FWCfgDmaAccess { control, len, addr }),
    {
        FWCfgDmaAccess { control, len, addr }
    }

    /// The request as the device reads it: each field big-endian.
    pub fn to_be_bytes(&self) -> (r: Vec<u8>)
        ensures
            r@ == be32(self.control) + be32(self.len) + be64(self.addr),
    {
        let mut out: Vec<u8> = Vec::new();
        push_be32(&mut out, self.control);
        push_be32(&mut out, self.len);
        push_be64(&mut out, self.addr);
        out
    }
}

/// Control word that selects fw_cfg item `selector` with the given flags.
pub fn dma_select_control(selector: u16, flags: u32) -> (r: u32)
    ensures
        r == (((selector as u32) << 16u32) | QEMU_CFG_DMA_CTL_SELECT | flags),
{
    ((selector as u32) << 16) | QEMU_CFG_DMA_CTL_SELECT | flags
}

/// Framebuffer configuration handed to the RAM framebuffer device.
#[derive(Debug, Clone, Copy, PartialEq, Eq, Structural)]
pub struct RamFBCfg {
    pub addr: u64,
    pub fmt: u32,
    pub flags: u32,
    pub width: u32,
    pub height: u32,
    /// Stride in bytes.
    pub st: u32,
}

impl RamFBCfg {
    /// Configuration for a framebuffer at `fb_addr` of `width` by `height`
    /// pixels in the "RG24" format, 4 bytes per pixel, packed rows.
    pub fn new(fb_addr: u64, width: u32, height: u32) -> (r: RamFBCfg)
        requires
            RAMFB_BPP * width <= u32::MAX,
        ensures
            r == (RamFBCfg {
                addr: fb_addr,
                fmt: RAMFB_FORMAT,
                flags: 0,
                width,
                height,
                st: (RAMFB_BPP * width) as u32,
            }),
    {
        RamFBCfg { addr: fb_addr, fmt: RAMFB_FORMAT, flags: 0, width, height, st: RAMFB_BPP * width }
    }

    /// The configuration as the device reads it: each field big-endian.
    pub fn to_be_bytes(&self) -> (r: Vec<u8>)
        ensures
            r@ == be64(self.addr) + be32(self.fmt) + be32(self.flags) + be32(self.width) + be32(
                self.height,
            ) + be32(self.st),
    {
        let mut out: Vec<u8> = Vec::new();
        push_be64(&mut out, self.addr);
        push_be32(&mut out, self.fmt);
        push_be32(&mut out, self.flags);
        push_be32(&mut out, self.width);
        push_be32(&mut out, self.height);
        push_be32(&mut out, self.st);
        out
    }
}

} // verus!
