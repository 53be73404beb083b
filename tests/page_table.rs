use kernel_core::page_table::{inspect_root_table, translate_and_dump, PageTableError, RootTable, PAGE_SIZE};

#[test]
fn aligned_root_table_is_located() {
    assert_eq!(
        inspect_root_table(0x1000, 0x18_0000_0000),
        Ok(RootTable { physical_base: 0x1000, virtual_base: 0x18_0000_1000, page_size: PAGE_SIZE })
    );
    assert_eq!(PAGE_SIZE, 4096);
}

#[test]
fn misaligned_root_table_is_refused() {
    assert_eq!(inspect_root_table(0x1001, 0), Err(PageTableError::Misaligned));
    assert_eq!(inspect_root_table(0x1800, 0x1000), Err(PageTableError::Misaligned));
}

#[test]
fn non_canonical_root_table_is_refused() {
    assert_eq!(inspect_root_table(0x8000_0000_0000, 0), Err(PageTableError::NonCanonical));
    assert_eq!(inspect_root_table(0xffff_8000_0000_0000, 0).map(|t| t.physical_base), Ok(0xffff_8000_0000_0000));
}

#[test]
fn dump_lists_word_addresses() {
    assert_eq!(
        translate_and_dump(0x2000, 0x100_0000, 6),
        Ok(vec![0x100_2000, 0x100_2008, 0x100_2010, 0x100_2018, 0x100_2020, 0x100_2028])
    );
    assert_eq!(translate_and_dump(0x2000, 0, 0), Ok(vec![]));
}

#[test]
fn dump_of_misaligned_base_fails() {
    assert_eq!(translate_and_dump(0x2008, 0, 6), Err(PageTableError::Misaligned));
}
