//! Diagnostic inspection of the active root page table: where it lies in the
//! virtual address space and which machine words a raw dump reads.

use vstd::prelude::*;
use x86_64::structures::paging::page::AddressNotAligned;
use x86_64::structures::paging::{Page, Size4KiB};
use x86_64::VirtAddr;
use crate::boot::{physical_to_virtual, translate};

verus! {

/// The size of a 4 KiB page, the alignment of a root page table.
pub const PAGE_SIZE: u64 = 4096;

/// The size of one machine word, one page-table entry.
pub const WORD_SIZE: u64 = 8;

#[verifier::external_type_specification]
#[verifier::external_body]
pub struct ExAddressNotAligned(AddressNotAligned);

/// Whether bits 48 to 63 of `addr` are copies of bit 47, as x86_64 asks of
/// every virtual address.
pub open spec fn is_canonical(addr: u64) -> bool {
    addr < 0x8000_0000_0000 || addr >= 0xffff_8000_0000_0000
}

/// Whether `addr` is the start of a 4 KiB page.
pub open spec fn is_page_aligned(addr: u64) -> bool {
    addr % 4096 == 0
}

/// Why a root page table could not be inspected.
#[derive(Clone, Copy, Debug, PartialEq, Eq, Structural)]
pub enum PageTableError {
    /// The base address is no canonical x86_64 address.
    NonCanonical,
    /// The base address is not 4 KiB aligned.
    Misaligned,
}

/// Where the root page table lies: its physical base, the virtual address it
/// is read through, and the size of the page it fills.
#[derive(Clone, Copy, Debug, PartialEq, Eq, Structural)]
pub struct RootTable {
    pub physical_base: u64,
    pub virtual_base: u64,
    pub page_size: u64,
}

/// Relies on x86_64's `Page::<Size4KiB>::from_start_address`, given
/// `VirtAddr::new(addr)` (which panics on a non-canonical address): it returns
/// a page exactly when `addr` is 4 KiB aligned, and that page starts at `addr`
/// (`start_address`) and has size 4096 (`size`).
#[verifier::external_body]
fn page_from_start_address(addr: u64) -> (r: Result<(u64, u64), AddressNotAligned>)
    requires
        is_canonical(addr),
    ensures
        r is Ok <==> is_page_aligned(addr),
        r matches Ok(p) ==> p.0 == addr && p.1 == 4096,
{
    Page::<Size4KiB>::from_start_address(VirtAddr::new(addr)).map(
        |p| (p.start_address().as_u64(), p.size()),
    )
}

/// Checks that `physical_base` can be the base of a root page table (canonical
/// and 4 KiB aligned) and locates it under the physical memory offset `offset`.
pub fn inspect_root_table(physical_base: u64, offset: u64) -> (r: Result<RootTable, PageTableError>)
    requires
        physical_base + offset <= u64::MAX,
    ensures
        !is_canonical(physical_base) ==> r == Err::<RootTable, PageTableError>(
            PageTableError::NonCanonical,
        ),
        is_canonical(physical_base) && !is_page_aligned(physical_base) ==> r == Err::<
            RootTable,
            PageTableError,
        >(PageTableError::Misaligned),
        is_canonical(physical_base) && is_page_aligned(physical_base) ==> r == Ok::<
            RootTable,
            PageTableError,
        >(
            (RootTable {
                physical_base,
                virtual_base: translate(physical_base as int, offset as int) as u64,
                page_size: PAGE_SIZE,
            }),
        ),
{
    if !(physical_base < 0x8000_0000_0000 || physical_base >= 0xffff_8000_0000_0000) {
        return Err(PageTableError::NonCanonical);
    }
    match page_from_start_address(physical_base) {
        Ok((start, size)) => Ok(
            RootTable {
                physical_base: start,
                virtual_base: physical_to_virtual(start, offset),
                page_size: size,
            },
        ),
        Err(_) => Err(PageTableError::Misaligned),
    }
}

/// The virtual addresses of the first `count` machine words of the root page
/// table at `physical_base`, under the physical memory offset `offset`: the
/// `i`-th is the table's virtual base plus `i` words. Fails as
/// `inspect_root_table` does.
pub fn translate_and_dump(physical_base: u64, offset: u64, count: usize) -> (r: Result<
    Vec<u64>,
    PageTableError,
>)
    requires
        physical_base + offset + WORD_SIZE * count <= u64::MAX,
    ensures
        !is_canonical(physical_base) ==> r == Err::<Vec<u64>, PageTableError>(
            PageTableError::NonCanonical,
        ),
        is_canonical(physical_base) && !is_page_aligned(physical_base) ==> r == Err::<
            Vec<u64>,
            PageTableError,
        >(PageTableError::Misaligned),
        is_canonical(physical_base) && is_page_aligned(physical_base) ==> r is Ok,
        r matches Ok(words) ==> words@.len() == count && forall|i: int|
            0 <= i < count ==> #[trigger] words@[i] == translate(physical_base as int, offset as int)
                + WORD_SIZE * i,
{
    let table = match inspect_root_table(physical_base, offset) {
        Ok(t) => t,
        Err(e) => {
            return Err(e);
        },
    };
    let mut words: Vec<u64> = Vec::new();
    let mut addr: u64 = table.virtual_base;
    let mut i: usize = 0;
    while i < count
        invariant
            0 <= i <= count,
            table.virtual_base == physical_base + offset,
            physical_base + offset + WORD_SIZE * count <= u64::MAX,
            addr == table.virtual_base + WORD_SIZE * i,
            words@.len() == i,
            forall|j: int| 0 <= j < i ==> #[trigger] words@[j] == table.virtual_base + WORD_SIZE * j,
        decreases count - i,
    {
        words.push(addr);
        assert(WORD_SIZE * (i + 1) <= WORD_SIZE * count) by (nonlinear_arith)
            requires
                i < count,
        ;
        addr = addr + WORD_SIZE;
        i = i + 1;
    }
    Ok(words)
}

} // verus!
