//! The bridge from the boot handoff to the kernel's address space: which
//! memory region is usable, and physical-to-virtual translation.

use vstd::prelude::*;

verus! {

/// The type of a physical memory region reported in the boot handoff.
#[derive(Clone, Copy, Debug, PartialEq, Eq, Structural)]
pub enum RegionKind {
    /// Free conventional memory, safe for the kernel to use.
    Usable,
    /// Mappings the bootloader itself created (page tables, boot info).
    Bootloader,
    /// A region the UEFI firmware reported, with its memory type tag.
    UnknownUefi(u32),
    /// A region the BIOS reported, with its E820 memory type.
    UnknownBios(u32),
    /// Any other region kept from general use.
    Reserved,
}

/// A physical memory range `[start, end)` and its kind.
#[derive(Clone, Copy, Debug, PartialEq, Eq, Structural)]
pub struct MemoryRegion {
    pub start: u64,
    pub end: u64,
    pub kind: RegionKind,
}

/// Whether `region` may be used by the kernel.
pub open spec fn is_usable(region: MemoryRegion) -> bool {
    region.kind == RegionKind::Usable
}

/// Whether some region of `regions` is usable.
pub open spec fn has_usable(regions: Seq<MemoryRegion>) -> bool {
    exists|i: int| 0 <= i < regions.len() && is_usable(#[trigger] regions[i])
}

/// Whether `i` is the index of the last usable region of `regions`.
pub open spec fn is_last_usable(regions: Seq<MemoryRegion>, i: int) -> bool {
    &&& 0 <= i < regions.len()
    &&& is_usable(regions[i])
    &&& forall|j: int| i < j < regions.len() ==> !is_usable(#[trigger] regions[j])
}

/// The virtual address at which physical address `physical` is mapped when
/// all of physical memory is mapped at `offset`.
pub open spec fn translate(physical: int, offset: int) -> int {
    physical + offset
}

/// Whether `region` is usable.
fn region_is_usable(region: &MemoryRegion) -> (r: bool)
    ensures
        r == is_usable(*region),
{
    match region.kind {
        RegionKind::Usable => true,
        _ => false,
    }
}

/// Whether the boot handoff reports any usable region at all; boot cannot
/// proceed without one.
pub fn has_usable_region(regions: &Vec<MemoryRegion>) -> (r: bool)
    ensures
        r == has_usable(regions@),
{
    let mut i: usize = 0;
    while i < regions.len()
        invariant
            0 <= i <= regions.len(),
            forall|j: int| 0 <= j < i ==> !is_usable(#[trigger] regions@[j]),
        decreases regions.len() - i,
    {
        if region_is_usable(&regions[i]) {
            return true;
        }
        i = i + 1;
    }
    false
}

/// The last region of `regions` whose kind is `Usable`. The handoff must
/// report one: without usable memory boot cannot go on.
pub fn select_usable_region(regions: &Vec<MemoryRegion>) -> (r: MemoryRegion)
    requires
        has_usable(regions@),
    ensures
        exists|i: int| is_last_usable(regions@, i) && r == regions@[i],
{
    let mut i: usize = regions.len();
    while i > 0
        invariant
            0 <= i <= regions.len(),
            has_usable(regions@),
            forall|j: int| i <= j < regions.len() ==> !is_usable(#[trigger] regions@[j]),
        decreases i,
    {
        i = i - 1;
        if region_is_usable(&regions[i]) {
            let found = regions[i];
            assert(is_last_usable(regions@, i as int));
            return found;
        }
    }
    proof {
        let k = choose|k: int| 0 <= k < regions@.len() && is_usable(#[trigger] regions@[k]);
        assert(!is_usable(regions@[k]));
    }
    regions[0]
}

/// The virtual address of `physical_addr` under the physical memory offset
/// `offset`: `physical_addr + offset`.
pub fn physical_to_virtual(physical_addr: u64, offset: u64) -> (r: u64)
    requires
        physical_addr + offset <= u64::MAX,
    ensures
        r == translate(physical_addr as int, offset as int),
{
    physical_addr + offset
}

/// Translation is invertible: taking the offset back off a translated
/// address gives the physical address again.
pub proof fn lemma_translate_inverse(physical: int, offset: int)
    ensures
        translate(physical, offset) - offset == physical,
{
}

} // verus!
