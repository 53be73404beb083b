use kernel_core::allocator::{init_heap, AllocError, AllocatorStrategy, DeallocError, Dummy, HeapState};

#[test]
fn heap_start_is_zero_at_load() {
    assert_eq!(HeapState::new().heap_start(), 0);
}

#[test]
fn init_heap_accumulates_offsets_in_order() {
    let mut heap = HeapState::new();
    init_heap(&mut heap, 0x1000);
    init_heap(&mut heap, 0x2000);
    assert_eq!(heap.heap_start(), 0x3000);
}

#[test]
fn init_heap_sums_many_offsets() {
    let mut heap = HeapState::new();
    let offsets = [7usize, 0, 0x10, 0x200, 1];
    for o in offsets {
        init_heap(&mut heap, o);
    }
    assert_eq!(heap.heap_start(), offsets.iter().sum::<usize>());
}

#[test]
fn init_heap_with_zero_twice_keeps_heap_start() {
    let mut heap = HeapState::new();
    init_heap(&mut heap, 0x4000);
    init_heap(&mut heap, 0);
    init_heap(&mut heap, 0);
    assert_eq!(heap.heap_start(), 0x4000);
}

#[test]
fn init_heap_is_not_idempotent() {
    let mut heap = HeapState::new();
    init_heap(&mut heap, 0x1000);
    init_heap(&mut heap, 0x1000);
    assert_eq!(heap.heap_start(), 0x2000);
}

#[test]
fn allocate_always_refuses() {
    let a = Dummy;
    assert_eq!(a.strategy(), AllocatorStrategy::Unimplemented);
    for (size, align) in [(0usize, 1usize), (1, 1), (64, 8), (4096, 4096), (usize::MAX, 1)] {
        assert_eq!(a.allocate(size, align), Err(AllocError::NoMemory));
    }
    let mut heap = HeapState::new();
    init_heap(&mut heap, 0x10_0000);
    assert_eq!(a.allocate(16, 8), Err(AllocError::NoMemory));
}

#[test]
fn deallocate_is_always_illegal() {
    let a = Dummy;
    assert_eq!(a.deallocate(0, 0, 1), Err(DeallocError::IllegalDeallocation));
    assert_eq!(a.deallocate(0x1000, 64, 8), Err(DeallocError::IllegalDeallocation));
}
