//! A bring-up kernel for the aarch64 `virt` board, modelled on plain
//! values: translation tables and the walk over them, MMU register setup,
//! exception-vector installation and syndrome decoding, and the interrupt
//! controller with its periodic timer. Device registers live in a
//! simulated register file and system registers in a plain struct, so
//! every step of bring-up is a function with a checked contract.
use vstd::prelude::*;

pub mod allocator;
pub mod color;
pub mod dtb;
pub mod exceptions;
pub mod fault;
pub mod geometry;
pub mod gic;
pub mod kernel;
pub mod mmio;
pub mod mmu;
pub mod paging;
pub mod pci;
pub mod ramfb;
pub mod random;
pub mod sysregs;
pub mod uart;
pub mod virtio;

verus! {

} // verus!
