//! Memory-mapped device registers, modelled as a sparse space of 32-bit
//! cells. A cell that was never written reads as zero.
use vstd::prelude::*;

verus! {

/// Value of the 32-bit register at `addr` in the register space `m`.
pub open spec fn reg_value(m: Map<u64, u32>, addr: u64) -> u32 {
    if m.contains_key(addr) {
        m[addr]
    } else {
        0
    }
}

/// A simulated bank of memory-mapped 32-bit registers.
pub struct RegisterFile {
    cells: Vec<(u64, u32)>,
    contents: Ghost<Map<u64, u32>>,
}

impl View for RegisterFile {
    type V = Map<u64, u32>;

    closed spec fn view(&self) -> Map<u64, u32> {
        self.contents@
    }
}

impl RegisterFile {
    /// The cells hold each address once and agree with the modelled contents.
    pub closed spec fn wf(&self) -> bool {
        &&& forall|i: int|
            0 <= i < self.cells@.len() ==> #[trigger] self.contents@.contains_key(self.cells@[i].0)
                && self.contents@[self.cells@[i].0] == self.cells@[i].1
        &&& forall|a: u64|
            #[trigger] self.contents@.contains_key(a) ==> exists|i: int|
                0 <= i < self.cells@.len() && self.cells@[i].0 == a
        &&& forall|i: int, j: int|
            0 <= i < self.cells@.len() && 0 <= j < self.cells@.len() && i != j
                ==> #[trigger] self.cells@[i].0 != #[trigger] self.cells@[j].0
    }

    /// An empty register space: every register reads as zero.
    pub fn new() -> (r: RegisterFile)
        ensures
            r.wf(),
            r@ == Map::<u64, u32>::empty(),
    {
        RegisterFile { cells: Vec::new(), contents: Ghost(Map::empty()) }
    }

    fn find(&self, addr: u64) -> (r: Option<usize>)
        requires
            self.wf(),
        ensures
            match r {
                Some(i) => i < self.cells@.len() && self.cells@[i as int].0 == addr,
                None => !self@.contains_key(addr),
            },
    {
        let mut i: usize = 0;
        while i < self.cells.len()
            invariant
                self.wf(),
                i <= self.cells@.len(),
                forall|k: int| 0 <= k < i ==> self.cells@[k].0 != addr,
            decreases self.cells@.len() - i,
        {
            if self.cells[i].0 == addr {
                return Some(i);
            }
            i = i + 1;
        }
        None
    }

    /// Volatile 32-bit read of the register at `addr`.
    pub fn read32(&self, addr: u64) -> (r: u32)
        requires
            self.wf(),
        ensures
            r == reg_value(self@, addr),
    {
        match self.find(addr) {
            Some(i) => self.cells[i].1,
            None => 0,
        }
    }

    /// Volatile 32-bit write of `data` to the register at `addr`.
    pub fn write32(&mut self, addr: u64, data: u32)
        requires
            old(self).wf(),
        ensures
            final(self).wf(),
            final(self)@ == old(self)@.insert(addr, data),
    {
        let ghost new_contents = self.contents@.insert(addr, data);
        let ghost pos: int;
        match self.find(addr) {
            Some(i) => {
                self.cells.set(i, (addr, data));
                proof {
                    pos = i as int;
                }
            },
            None => {
                self.cells.push((addr, data));
                proof {
                    pos = self.cells@.len() - 1;
                }
            },
        }
        self.contents = Ghost(new_contents);
        assert forall|a: u64| #[trigger] self.contents@.contains_key(a) implies exists|i: int|
            0 <= i < self.cells@.len() && self.cells@[i].0 == a by {
            if a != addr {
                assert(old(self).contents@.contains_key(a));
                let j = choose|j: int| 0 <= j < old(self).cells@.len() && old(self).cells@[j].0 == a;
                assert(self.cells@[j].0 == a);
            } else {
                assert(self.cells@[pos].0 == addr);
            }
        }
    }
}

/// Write a 32-bit value to a device register.
pub fn mmio_write(bus: &mut RegisterFile, reg: u64, data: u32)
    requires
        old(bus).wf(),
    ensures
        final(bus).wf(),
        final(bus)@ == old(bus)@.insert(reg, data),
{
    bus.write32(reg, data);
}

/// Read a device register, widened to 64 bits.
pub fn mmio_read(bus: &RegisterFile, reg: u64) -> (r: u64)
    requires
        bus.wf(),
    ensures
        r == reg_value(bus@, reg) as u64,
{
    bus.read32(reg) as u64
}

} // verus!
