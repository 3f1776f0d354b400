//! The VirtIO GPU, found on the PCI bus.
use vstd::prelude::*;
use crate::mmio::RegisterFile;
use crate::pci::{device_at, find_pci_device, in_scan_range, pci_addr};

verus! {

/// PCI vendor id of VirtIO devices.
pub const VIRTIO_VENDOR_ID: u32 = 0x1af4;

/// PCI device id of the VirtIO GPU.
pub const VIRTIO_GPU_DEVICE_ID: u32 = 0x1050;

/// A VirtIO GPU at a PCI configuration address.
#[derive(Debug, Clone, Copy, PartialEq, Eq, Structural)]
pub struct VirtioDriver {
    pub base: u64,
}

impl VirtioDriver {
    /// Locate the VirtIO GPU on the PCI bus; `Err(1)` when there is none.
    pub fn new(bus: &RegisterFile) -> (r: Result<VirtioDriver, u8>)
        requires
            bus.wf(),
        ensures
            r is Err <==> forall|b: u32, s: u32, f: u32|
                in_scan_range(b, s, f) ==> !#[trigger] device_at(
                    bus@,
                    VIRTIO_VENDOR_ID,
                    VIRTIO_GPU_DEVICE_ID,
                    b,
                    s,
                    f,
                ),
            r is Err ==> r == Err::<VirtioDriver, u8>(1),
            r matches Ok(d) ==> exists|b: u32, s: u32, f: u32|
                in_scan_range(b, s, f) && d.base == #[trigger] pci_addr(b, s, f, 0) && device_at(
                    bus@,
                    VIRTIO_VENDOR_ID,
                    VIRTIO_GPU_DEVICE_ID,
                    b,
                    s,
                    f,
                ),
    {
        let base = find_pci_device(bus, VIRTIO_VENDOR_ID, VIRTIO_GPU_DEVICE_ID);
        if base == 0 {
            Err(1)
        } else {
            Ok(VirtioDriver { base })
        }
    }
}

} // verus!
