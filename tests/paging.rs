use mvos::paging::{
    encode_block, identity_map, translate, L0Entry, L0Table, L1Entry, L1Table, L2Entry, L2Table,
    PagingError, BLOCK_SIZE,
};

fn va_of(i0: u64, i1: u64, i2: u64, offset: u64) -> u64 {
    (i0 << 42) | (i1 << 29) | (i2 << 16) | offset
}

fn chain(va: u64, desc: u64) -> L0Table {
    let i0 = ((va >> 42) & 0x3FF) as usize;
    let i1 = ((va >> 29) & 0x1FFF) as usize;
    let i2 = ((va >> 16) & 0x1FFF) as usize;
    let mut l2 = L2Table::new();
    l2.add_entry(L2Entry::Block(desc), i2).unwrap();
    let mut l1 = L1Table::new();
    l1.add_entry(L1Entry::Pointer(Box::new(l2)), i1).unwrap();
    let mut l0 = L0Table::new();
    l0.add_entry(L0Entry::Pointer(Box::new(l1)), i0).unwrap();
    l0
}

#[test]
fn l0_add_entry_rejects_index_512() {
    let mut l0 = L0Table::new();
    assert_eq!(l0.add_entry(L0Entry::Invalid, 512), Err(PagingError::IndexOutOfBounds));
    assert_eq!(
        l0.add_entry(L0Entry::Pointer(Box::new(L1Table::new())), 600),
        Err(PagingError::IndexOutOfBounds)
    );
    assert!(matches!(l0.read_index(511), Some(L0Entry::Invalid)));
    assert!(l0.read_index(512).is_none());
    assert_eq!(l0.add_entry(L0Entry::Pointer(Box::new(L1Table::new())), 511), Ok(()));
    assert!(matches!(l0.read_index(511), Some(L0Entry::Pointer(_))));
}

#[test]
fn l1_add_entry_rejects_index_8192() {
    let mut l1 = L1Table::new();
    assert_eq!(
        l1.add_entry(L1Entry::Pointer(Box::new(L2Table::new())), 8192),
        Err(PagingError::IndexOutOfBounds)
    );
    assert!(matches!(l1.read_index(8191), Some(L1Entry::Invalid)));
    assert_eq!(l1.add_entry(L1Entry::Pointer(Box::new(L2Table::new())), 8191), Ok(()));
    assert!(matches!(l1.read_index(8191), Some(L1Entry::Pointer(_))));
}

#[test]
fn l2_add_entry_rejects_index_8192_and_keeps_table() {
    let mut l2 = L2Table::new();
    l2.add_entry(L2Entry::Block(0x1_0000), 10).unwrap();
    assert_eq!(l2.add_entry(L2Entry::Block(0x2_0000), 8192), Err(PagingError::IndexOutOfBounds));
    assert_eq!(l2.add_entry(L2Entry::Invalid, usize::MAX), Err(PagingError::IndexOutOfBounds));
    assert_eq!(l2.read_index(10), Some(&L2Entry::Block(0x1_0000)));
    for i in 0..8192 {
        if i != 10 {
            assert_eq!(l2.read_index(i), Some(&L2Entry::Invalid));
        }
    }
    assert_eq!(l2.add_entry(L2Entry::Block(0x2_0000), 8191), Ok(()));
    assert_eq!(l2.read_index(8191), Some(&L2Entry::Block(0x2_0000)));
}

#[test]
fn encode_block_packs_fields() {
    assert_eq!(encode_block(0x5_0000_0000, 3, 1, 2, 1), 0x5_0000_0349);
    assert_eq!(encode_block(0, 0, 0, 0, 0), 0);
}

#[test]
fn round_trip_translation() {
    let va = va_of(3, 5, 7, 0x1234);
    assert_eq!(va, 0xc00a0071234);
    let desc = encode_block(0x5_0000_0000, 3, 0, 0, 1);
    let root = chain(va, desc);
    assert_eq!(translate(va, &root), Ok(0x5_0000_0000 + 0x1234));
    // Every offset in the block lands in the same block.
    assert_eq!(translate(va_of(3, 5, 7, 0), &root), Ok(0x5_0000_0000));
    assert_eq!(translate(va_of(3, 5, 7, 0xFFFF), &root), Ok(0x5_0000_FFFF));
}

#[test]
fn walk_miss_at_l1_is_tagged_l1() {
    let va = va_of(3, 5, 7, 0x1234);
    let desc = encode_block(0x5_0000_0000, 3, 0, 0, 1);
    let mut l2 = L2Table::new();
    l2.add_entry(L2Entry::Block(desc), 7).unwrap();
    let mut l1 = L1Table::new();
    l1.add_entry(L1Entry::Pointer(Box::new(l2)), 5).unwrap();
    // Clear the L1 entry selected by the address.
    l1.add_entry(L1Entry::Invalid, 5).unwrap();
    let mut l0 = L0Table::new();
    l0.add_entry(L0Entry::Pointer(Box::new(l1)), 3).unwrap();
    let r = translate(va, &l0);
    assert_eq!(r, Err(PagingError::L1EntryInvalid));
    assert_eq!(r.unwrap_err().message(), "L1 table entry was Invalid");
}

#[test]
fn walk_miss_at_l0_and_l2() {
    let va = va_of(3, 5, 7, 0x1234);
    let desc = encode_block(0x5_0000_0000, 3, 0, 0, 1);
    let root = chain(va, desc);
    assert_eq!(translate(va_of(4, 5, 7, 0), &root), Err(PagingError::L0EntryInvalid));
    // L0 index beyond the 512 entries of the table.
    assert_eq!(translate(va_of(600, 5, 7, 0), &root), Err(PagingError::L0EntryInvalid));
    assert_eq!(translate(va_of(3, 5, 8, 0), &root), Err(PagingError::L2EntryInvalid));
    assert_eq!(translate(0, &L0Table::new()), Err(PagingError::L0EntryInvalid));
    assert_eq!(PagingError::L0EntryInvalid.message(), "L0 table entry was Invalid");
    assert_eq!(PagingError::L2EntryInvalid.message(), "L2 table entry was Invalid");
}

#[test]
fn kernel_half_mapping() {
    let root = identity_map();
    assert_eq!(translate(va_of(0, 0, 0, 0x42), &root), Ok(0x42));
    assert_eq!(translate(va_of(0, 0, 3, 0x10), &root), Ok(3 * BLOCK_SIZE + 0x10));
    assert_eq!(translate(va_of(0, 0, 511, 0xFFFF), &root), Ok(511 * BLOCK_SIZE + 0xFFFF));
    assert_eq!(translate(va_of(0, 0, 512, 0), &root), Err(PagingError::L2EntryInvalid));
    assert_eq!(translate(va_of(0, 1, 0, 0), &root), Err(PagingError::L1EntryInvalid));
    assert_eq!(translate(va_of(1, 0, 0, 0), &root), Err(PagingError::L0EntryInvalid));
}
