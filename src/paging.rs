//! Three-level translation tables (L0 -> L1 -> L2 block), block descriptor
//! encoding, the top-down translation walk and the kernel-half mapping.
//!
//! A virtual address is split as: bits [51:42] L0 index, [41:29] L1 index,
//! [28:16] L2 index, [15:0] offset within the block.
use vstd::prelude::*;

verus! {

/// Number of entries of an L0 table.
pub const L0_ENTRIES: usize = 512;

/// Number of entries of an L1 table.
pub const L1_ENTRIES: usize = 8192;

/// Number of entries of an L2 table.
pub const L2_ENTRIES: usize = 8192;

/// Distance in physical address between two consecutive blocks of the
/// kernel-half mapping.
pub const BLOCK_SIZE: u64 = 0x400_0000_0000;

/// Number of L2 slots that the kernel-half mapping fills.
pub const MAPPED_BLOCKS: usize = 512;

/// Entry-type tag of a block descriptor, bits [1:0].
pub const DESC_BLOCK: u64 = 0b01;

/// Inner-shareable, bits [9:8] of a descriptor.
pub const SH_INNER: u64 = 0b11;

/// Read/write at EL1 only, bits [7:6] of a descriptor.
pub const AP_KERNEL_RW: u64 = 0b00;

/// Memory-attribute index of normal cacheable memory.
pub const ATTR_NORMAL: u64 = 0;

/// Errors of table construction and of the translation walk.
#[derive(Debug, Clone, Copy, PartialEq, Eq, Structural)]
pub enum PagingError {
    /// An index at or beyond the size of the table.
    IndexOutOfBounds,
    /// The walk found no valid L0 entry for the address.
    L0EntryInvalid,
    /// The walk found no valid L1 entry for the address.
    L1EntryInvalid,
    /// The walk found no valid L2 entry for the address.
    L2EntryInvalid,
}

impl PagingError {
    /// Human-readable reason, naming the level for walk errors.
    pub open spec fn message_spec(self) -> Seq<char> {
        match self {
            PagingError::IndexOutOfBounds => "Table index out of bounds"@,
            PagingError::L0EntryInvalid => "L0 table entry was Invalid"@,
            PagingError::L1EntryInvalid => "L1 table entry was Invalid"@,
            PagingError::L2EntryInvalid => "L2 table entry was Invalid"@,
        }
    }

    /// Human-readable reason, naming the level for walk errors.
    pub fn message(&self) -> (r: &'static str)
        ensures
            r@ == self.message_spec(),
    {
        match self {
            PagingError::IndexOutOfBounds => "Table index out of bounds",
            PagingError::L0EntryInvalid => "L0 table entry was Invalid",
            PagingError::L1EntryInvalid => "L1 table entry was Invalid",
            PagingError::L2EntryInvalid => "L2 table entry was Invalid",
        }
    }
}

/// Entry of an L2 table: a block descriptor or nothing.
#[derive(Debug, Clone, Copy, PartialEq, Eq, Structural)]
pub enum L2Entry {
    Invalid,
    Block(u64),
}

/// Entry of an L1 table: an owned L2 table or nothing.
#[derive(Debug)]
pub enum L1Entry {
    Invalid,
    Pointer(Box<L2Table>),
}

/// Entry of an L0 table: an owned L1 table or nothing.
#[derive(Debug)]
pub enum L0Entry {
    Invalid,
    Pointer(Box<L1Table>),
}

/// Table of 8192 L2 entries.
#[derive(Debug)]
pub struct L2Table {
    entries: Vec<L2Entry>,
}

/// Table of 8192 L1 entries.
#[derive(Debug)]
pub struct L1Table {
    entries: Vec<L1Entry>,
}

/// Table of 512 L0 entries; the root of a mapping.
#[derive(Debug)]
pub struct L0Table {
    entries: Vec<L0Entry>,
}

impl View for L2Table {
    type V = Seq<L2Entry>;

    closed spec fn view(&self) -> Seq<L2Entry> {
        self.entries@
    }
}

impl View for L1Table {
    type V = Seq<L1Entry>;

    closed spec fn view(&self) -> Seq<L1Entry> {
        self.entries@
    }
}

impl View for L0Table {
    type V = Seq<L0Entry>;

    closed spec fn view(&self) -> Seq<L0Entry> {
        self.entries@
    }
}

impl L2Table {
    pub open spec fn wf(&self) -> bool {
        self@.len() == L2_ENTRIES
    }

    /// A table whose entries are all invalid.
    pub fn new() -> (r: L2Table)
        ensures
            r.wf(),
            forall|i: int| 0 <= i < L2_ENTRIES ==> #[trigger] r@[i] == L2Entry::Invalid,
    {
        let mut entries: Vec<L2Entry> = Vec::new();
        let mut i: usize = 0;
        while i < L2_ENTRIES
            invariant
                i <= L2_ENTRIES,
                entries@.len() == i,
                forall|k: int| 0 <= k < i ==> #[trigger] entries@[k] == L2Entry::Invalid,
            decreases L2_ENTRIES - i,
        {
            entries.push(L2Entry::Invalid);
            i = i + 1;
        }
        L2Table { entries }
    }

    /// Store `entry` at `index`; an index at or beyond 8192 is refused and
    /// leaves the table as it was.
    pub fn add_entry(&mut self, entry: L2Entry, index: usize) -> (r: Result<(), PagingError>)
        requires
            old(self).wf(),
        ensures
            final(self).wf(),
            index < L2_ENTRIES ==> r == Ok::<(), PagingError>(()) && final(self)@ == old(
                self,
            )@.update(index as int, entry),
            index >= L2_ENTRIES ==> r == Err::<(), PagingError>(PagingError::IndexOutOfBounds)
                && final(self)@ == old(self)@,
    {
        if index >= L2_ENTRIES {
            return Err(PagingError::IndexOutOfBounds);
        }
        self.entries.set(index, entry);
        Ok(())
    }

    /// The entry at `index`, or `None` beyond the end of the table.
    pub fn read_index(&self, index: usize) -> (r: Option<&L2Entry>)
        ensures
            index < self@.len() ==> r == Some(&self@[index as int]),
            index >= self@.len() ==> r is None,
    {
        if index < self.entries.len() {
            Some(&self.entries[index])
        } else {
            None
        }
    }
}

impl L1Table {
    pub open spec fn wf(&self) -> bool {
        self@.len() == L1_ENTRIES
    }

    /// A table whose entries are all invalid.
    pub fn new() -> (r: L1Table)
        ensures
            r.wf(),
            forall|i: int| 0 <= i < L1_ENTRIES ==> #[trigger] r@[i] is Invalid,
    {
        let mut entries: Vec<L1Entry> = Vec::new();
        let mut i: usize = 0;
        while i < L1_ENTRIES
            invariant
                i <= L1_ENTRIES,
                entries@.len() == i,
                forall|k: int| 0 <= k < i ==> #[trigger] entries@[k] is Invalid,
            decreases L1_ENTRIES - i,
        {
            entries.push(L1Entry::Invalid);
            i = i + 1;
        }
        L1Table { entries }
    }

    /// Store `entry` at `index`; an index at or beyond 8192 is refused and
    /// leaves the table as it was.
    pub fn add_entry(&mut self, entry: L1Entry, index: usize) -> (r: Result<(), PagingError>)
        requires
            old(self).wf(),
        ensures
            final(self).wf(),
            index < L1_ENTRIES ==> r == Ok::<(), PagingError>(()) && final(self)@ == old(
                self,
            )@.update(index as int, entry),
            index >= L1_ENTRIES ==> r == Err::<(), PagingError>(PagingError::IndexOutOfBounds)
                && final(self)@ == old(self)@,
    {
        if index >= L1_ENTRIES {
            return Err(PagingError::IndexOutOfBounds);
        }
        self.entries.set(index, entry);
        Ok(())
    }

    /// The entry at `index`, or `None` beyond the end of the table.
    pub fn read_index(&self, index: usize) -> (r: Option<&L1Entry>)
        ensures
            index < self@.len() ==> r == Some(&self@[index as int]),
            index >= self@.len() ==> r is None,
    {
        if index < self.entries.len() {
            Some(&self.entries[index])
        } else {
            None
        }
    }
}

impl L0Table {
    pub open spec fn wf(&self) -> bool {
        self@.len() == L0_ENTRIES
    }

    /// A table whose entries are all invalid.
    pub fn new() -> (r: L0Table)
        ensures
            r.wf(),
            forall|i: int| 0 <= i < L0_ENTRIES ==> #[trigger] r@[i] is Invalid,
    {
        let mut entries: Vec<L0Entry> = Vec::new();
        let mut i: usize = 0;
        while i < L0_ENTRIES
            invariant
                i <= L0_ENTRIES,
                entries@.len() == i,
                forall|k: int| 0 <= k < i ==> #[trigger] entries@[k] is Invalid,
            decreases L0_ENTRIES - i,
        {
            entries.push(L0Entry::Invalid);
            i = i + 1;
        }
        L0Table { entries }
    }

    /// Store `entry` at `index`; an index at or beyond 512 is refused and
    /// leaves the table as it was.
    pub fn add_entry(&mut self, entry: L0Entry, index: usize) -> (r: Result<(), PagingError>)
        requires
            old(self).wf(),
        ensures
            final(self).wf(),
            index < L0_ENTRIES ==> r == Ok::<(), PagingError>(()) && final(self)@ == old(
                self,
            )@.update(index as int, entry),
            index >= L0_ENTRIES ==> r == Err::<(), PagingError>(PagingError::IndexOutOfBounds)
                && final(self)@ == old(self)@,
    {
        if index >= L0_ENTRIES {
            return Err(PagingError::IndexOutOfBounds);
        }
        self.entries.set(index, entry);
        Ok(())
    }

    /// The entry at `index`, or `None` beyond the end of the table.
    pub fn read_index(&self, index: usize) -> (r: Option<&L0Entry>)
        ensures
            index < self@.len() ==> r == Some(&self@[index as int]),
            index >= self@.len() ==> r is None,
    {
        if index < self.entries.len() {
            Some(&self.entries[index])
        } else {
            None
        }
    }
}

/// L0 index of a virtual address, bits [51:42].
pub open spec fn l0_index(va: u64) -> u64 {
    (va >> 42u64) & 0x3FF
}

/// L1 index of a virtual address, bits [41:29].
pub open spec fn l1_index(va: u64) -> u64 {
    (va >> 29u64) & 0x1FFF
}

/// L2 index of a virtual address, bits [28:16].
pub open spec fn l2_index(va: u64) -> u64 {
    (va >> 16u64) & 0x1FFF
}

/// Offset of a virtual address within its block, bits [15:0].
pub open spec fn block_offset(va: u64) -> u64 {
    va & 0xFFFF
}

/// Physical base address held by a block descriptor: its bits from 16 up.
pub open spec fn block_base(desc: u64) -> u64 {
    desc & 0xFFFF_FFFF_FFFF_0000
}

/// A block descriptor packed from its fields.
pub open spec fn block_descriptor(pa: u64, shareability: u64, access: u64, attr_index: u64, kind: u64) -> u64 {
    pa | (shareability << 8u64) | (access << 6u64) | (attr_index << 2u64) | kind
}

/// Result of the top-down walk of `root` for `va`.
pub open spec fn translate_spec(root: Seq<L0Entry>, va: u64) -> Result<u64, PagingError> {
    let i0 = l0_index(va) as int;
    if i0 >= root.len() {
        Err(PagingError::L0EntryInvalid)
    } else {
        match root[i0] {
            L0Entry::Invalid => Err(PagingError::L0EntryInvalid),
            L0Entry::Pointer(t1) => {
                let l1 = t1@;
                let i1 = l1_index(va) as int;
                if i1 >= l1.len() {
                    Err(PagingError::L1EntryInvalid)
                } else {
                    match l1[i1] {
                        L1Entry::Invalid => Err(PagingError::L1EntryInvalid),
                        L1Entry::Pointer(t2) => {
                            let l2 = t2@;
                            let i2 = l2_index(va) as int;
                            if i2 >= l2.len() {
                                Err(PagingError::L2EntryInvalid)
                            } else {
                                match l2[i2] {
                                    L2Entry::Invalid => Err(PagingError::L2EntryInvalid),
                                    L2Entry::Block(desc) => Ok(
                                        (block_base(desc) + block_offset(va)) as u64,
                                    ),
                                }
                            }
                        },
                    }
                }
            },
        }
    }
}

proof fn lemma_base_plus_offset(desc: u64, va: u64)
    ensures
        block_base(desc) + block_offset(va) <= u64::MAX,
{
    assert(desc & 0xFFFF_FFFF_FFFF_0000 <= 0xFFFF_FFFF_FFFF_0000) by (bit_vector);
    assert(va & 0xFFFF <= 0xFFFF) by (bit_vector);
}

/// Pack a block descriptor. Every field must already fit its width; the
/// physical address must have its low 16 bits clear.
pub fn encode_block(pa: u64, shareability: u64, access: u64, attr_index: u64, kind: u64) -> (r: u64)
    requires
        pa & 0xFFFF == 0,
        shareability < 4,
        access < 4,
        attr_index < 8,
        kind < 4,
    ensures
        r == block_descriptor(pa, shareability, access, attr_index, kind),
        block_base(r) == pa,
{
    let r = pa | (shareability << 8) | (access << 6) | (attr_index << 2) | kind;
    assert((pa | (shareability << 8u64) | (access << 6u64) | (attr_index << 2u64) | kind)
        & 0xFFFF_FFFF_FFFF_0000 == pa) by (bit_vector)
        requires
            pa & 0xFFFF == 0,
            shareability < 4,
            access < 4,
            attr_index < 8,
            kind < 4,
    ;
    r
}

/// Walk `root` top-down for `virtual_address`: the block's base plus the
/// offset, or an error naming the level whose entry was invalid.
pub fn translate(virtual_address: u64, root: &L0Table) -> (r: Result<u64, PagingError>)
    ensures
        r == translate_spec(root@, virtual_address),
{
    let va = virtual_address;
    assert(((va >> 42u64) & 0x3FF) <= 0x3FF) by (bit_vector);
    assert(((va >> 29u64) & 0x1FFF) <= 0x1FFF) by (bit_vector);
    assert(((va >> 16u64) & 0x1FFF) <= 0x1FFF) by (bit_vector);
    let i0 = ((va >> 42) & 0x3FF) as usize;
    let i1 = ((va >> 29) & 0x1FFF) as usize;
    let i2 = ((va >> 16) & 0x1FFF) as usize;
    match root.read_index(i0) {
        None => Err(PagingError::L0EntryInvalid),
        Some(L0Entry::Invalid) => Err(PagingError::L0EntryInvalid),
        Some(L0Entry::Pointer(l1)) => match l1.read_index(i1) {
            None => Err(PagingError::L1EntryInvalid),
            Some(L1Entry::Invalid) => Err(PagingError::L1EntryInvalid),
            Some(L1Entry::Pointer(l2)) => match l2.read_index(i2) {
                None => Err(PagingError::L2EntryInvalid),
                Some(L2Entry::Invalid) => Err(PagingError::L2EntryInvalid),
                Some(L2Entry::Block(desc)) => {
                    proof {
                        lemma_base_plus_offset(*desc, va);
                    }
                    Ok((*desc & 0xFFFF_FFFF_FFFF_0000) + (va & 0xFFFF))
                },
            },
        },
    }
}

/// Descriptor that the kernel-half mapping stores in L2 slot `i`.
pub open spec fn kernel_block_descriptor(i: u64) -> u64 {
    block_descriptor((i * BLOCK_SIZE) as u64, SH_INNER, AP_KERNEL_RW, ATTR_NORMAL, DESC_BLOCK)
}

/// What the kernel-half mapping gives for `va`: one L0 and one L1 entry
/// (both at index 0) lead to an L2 table whose first 512 slots map blocks
/// spaced `BLOCK_SIZE` apart from physical address 0.
pub open spec fn kernel_map(va: u64) -> Result<u64, PagingError> {
    if l0_index(va) != 0 {
        Err(PagingError::L0EntryInvalid)
    } else if l1_index(va) != 0 {
        Err(PagingError::L1EntryInvalid)
    } else if l2_index(va) >= MAPPED_BLOCKS {
        Err(PagingError::L2EntryInvalid)
    } else {
        Ok((l2_index(va) * BLOCK_SIZE + block_offset(va)) as u64)
    }
}

proof fn lemma_kernel_block(i: u64)
    requires
        i < 512,
    ensures
        (i * BLOCK_SIZE) as u64 & 0xFFFF == 0,
        i * BLOCK_SIZE + 0xFFFF <= u64::MAX,
        block_base(kernel_block_descriptor(i)) == i * BLOCK_SIZE,
{
    let pa: u64 = (i * BLOCK_SIZE) as u64;
    assert(i * 0x400_0000_0000 <= 511 * 0x400_0000_0000);
    assert(((i * 0x400_0000_0000u64) as u64) & 0xFFFF == 0) by (bit_vector)
        requires
            i < 512,
    ;
    assert((pa | (3u64 << 8u64) | (0u64 << 6u64) | (0u64 << 2u64) | 1u64)
        & 0xFFFF_FFFF_FFFF_0000 == pa) by (bit_vector)
        requires
            pa & 0xFFFF == 0,
    ;
}

/// Build the kernel-half mapping: a root whose walk gives `kernel_map` for
/// every virtual address.
pub fn identity_map() -> (r: L0Table)
    ensures
        r.wf(),
        forall|va: u64| #[trigger] translate_spec(r@, va) == kernel_map(va),
{
    let mut l2 = L2Table::new();
    let mut i: usize = 0;
    while i < MAPPED_BLOCKS
        invariant
            i <= MAPPED_BLOCKS,
            l2.wf(),
            forall|k: int|
                0 <= k < i ==> #[trigger] l2@[k] == L2Entry::Block(kernel_block_descriptor(k as u64)),
            forall|k: int| i <= k < L2_ENTRIES ==> #[trigger] l2@[k] == L2Entry::Invalid,
        decreases MAPPED_BLOCKS - i,
    {
        proof {
            lemma_kernel_block(i as u64);
        }
        let pa = (i as u64) * BLOCK_SIZE;
        let desc = encode_block(pa, SH_INNER, AP_KERNEL_RW, ATTR_NORMAL, DESC_BLOCK);
        let _ = l2.add_entry(L2Entry::Block(desc), i);
        i = i + 1;
    }
    let mut l1 = L1Table::new();
    let _ = l1.add_entry(L1Entry::Pointer(Box::new(l2)), 0);
    let mut l0 = L0Table::new();
    let _ = l0.add_entry(L0Entry::Pointer(Box::new(l1)), 0);
    assert forall|va: u64| #[trigger] translate_spec(l0@, va) == kernel_map(va) by {
        let i2 = l2_index(va);
        if l0_index(va) == 0 && l1_index(va) == 0 && i2 < MAPPED_BLOCKS {
            lemma_kernel_block(i2);
            lemma_base_plus_offset(kernel_block_descriptor(i2), va);
        }
    }
    l0
}

/// A populated chain: the walk for `va` reaches the block descriptor `desc`.
pub open spec fn maps_to_block(root: Seq<L0Entry>, va: u64, desc: u64) -> bool {
    let i0 = l0_index(va) as int;
    &&& 0 <= i0 < root.len()
    &&& root[i0] matches L0Entry::Pointer(t1) && {
        let i1 = l1_index(va) as int;
        &&& 0 <= i1 < t1@.len()
        &&& t1@[i1] matches L1Entry::Pointer(t2) && {
            let i2 = l2_index(va) as int;
            &&& 0 <= i2 < t2@.len()
            &&& t2@[i2] == L2Entry::Block(desc)
        }
    }
}

/// Round trip: where the L0/L1/L2 chain for `va` ends in a block
/// descriptor, translation gives that block's base plus the low 16 bits
/// of `va`, exactly.
pub proof fn lemma_round_trip(root: Seq<L0Entry>, va: u64, desc: u64)
    requires
        maps_to_block(root, va, desc),
    ensures
        translate_spec(root, va) == Ok::<u64, PagingError>(
            (block_base(desc) + (va & 0xFFFF)) as u64,
        ),
        block_base(desc) + (va & 0xFFFF) <= u64::MAX,
{
    lemma_base_plus_offset(desc, va);
}

/// Walk-miss tagging: where the L0 entry for `va` leads to an L1 table whose
/// entry for `va` is invalid, translation fails with the L1 error and no
/// other.
pub proof fn lemma_walk_miss_l1(root: Seq<L0Entry>, va: u64, l1: Seq<L1Entry>)
    requires
        0 <= l0_index(va) < root.len(),
        root[l0_index(va) as int] matches L0Entry::Pointer(t1) && t1@ == l1,
        l1_index(va) < l1.len(),
        l1[l1_index(va) as int] is Invalid,
    ensures
        translate_spec(root, va) == Err::<u64, PagingError>(PagingError::L1EntryInvalid),
{
}

} // verus!
