//! The global allocation strategy and the heap-start bookkeeping.

use vstd::prelude::*;

verus! {

/// Why an allocation request was refused.
#[derive(Clone, Copy, Debug, PartialEq, Eq, Structural)]
pub enum AllocError {
    /// No memory can be handed out.
    NoMemory,
}

/// Why handing a block back is refused.
#[derive(Clone, Copy, Debug, PartialEq, Eq, Structural)]
pub enum DeallocError {
    /// No block was ever handed out, so none can come back: a fatal
    /// programming-contract violation.
    IllegalDeallocation,
}

/// The allocation strategy that is active: `Unimplemented` hands out nothing.
#[derive(Clone, Copy, Debug, PartialEq, Eq, Structural)]
pub enum AllocatorStrategy {
    Unimplemented,
}

/// The placeholder allocator: every request is refused and nothing may ever
/// be handed back.
#[derive(Clone, Copy, Debug)]
pub struct Dummy;

impl Dummy {
    /// The strategy this allocator implements.
    pub fn strategy(&self) -> (r: AllocatorStrategy)
        ensures
            r == AllocatorStrategy::Unimplemented,
    {
        AllocatorStrategy::Unimplemented
    }

    /// Requests `size` bytes aligned to `align`: always `NoMemory`, whatever
    /// the request and whatever the heap state.
    pub fn allocate(&self, size: usize, align: usize) -> (r: Result<usize, AllocError>)
        ensures
            r == Err::<usize, AllocError>(AllocError::NoMemory),
    {
        Err(AllocError::NoMemory)
    }

    /// Hands a block back. Since `allocate` never succeeds there is never a
    /// block to hand back: every call is a contract violation, answered with
    /// `IllegalDeallocation`, on which the caller must abort.
    pub fn deallocate(&self, ptr: usize, size: usize, align: usize) -> (r: Result<(), DeallocError>)
        ensures
            r == Err::<(), DeallocError>(DeallocError::IllegalDeallocation),
    {
        Err(DeallocError::IllegalDeallocation)
    }
}

/// The running heap-start address, zero at load.
#[derive(Clone, Copy, Debug)]
pub struct HeapState {
    start: usize,
}

impl View for HeapState {
    type V = nat;

    closed spec fn view(&self) -> nat {
        self.start as nat
    }
}

/// What the heap start is after each offset of `offsets` was added in turn,
/// starting from `start`.
pub open spec fn heap_after(start: nat, offsets: Seq<nat>) -> nat
    decreases offsets.len(),
{
    if offsets.len() == 0 {
        start
    } else {
        heap_after(start, offsets.drop_last()) + offsets.last()
    }
}

/// The sum of a sequence of offsets.
pub open spec fn sum_of(offsets: Seq<nat>) -> nat
    decreases offsets.len(),
{
    if offsets.len() == 0 {
        0
    } else {
        offsets[0] + sum_of(offsets.subrange(1, offsets.len() as int))
    }
}

impl HeapState {
    /// The state at load: heap start zero.
    pub fn new() -> (r: HeapState)
        ensures
            r@ == 0,
    {
        HeapState { start: 0 }
    }

    /// The current heap-start address.
    pub fn heap_start(&self) -> (r: usize)
        ensures
            r == self@,
    {
        self.start
    }
}

/// Adds `offset` to the heap start. Additive, not idempotent: each call adds
/// its offset again.
pub fn init_heap(heap: &mut HeapState, offset: usize)
    requires
        old(heap)@ + offset <= usize::MAX,
    ensures
        final(heap)@ == old(heap)@ + offset,
{
    heap.start = heap.start + offset;
}

/// The sum of `s` with its last element split off.
proof fn lemma_sum_of_push(s: Seq<nat>)
    requires
        s.len() > 0,
    ensures
        sum_of(s) == sum_of(s.drop_last()) + s.last(),
    decreases s.len(),
{
    if s.len() > 1 {
        let rest = s.subrange(1, s.len() as int);
        let init = s.drop_last();
        lemma_sum_of_push(rest);
        assert(rest.drop_last() =~= init.subrange(1, init.len() as int));
        assert(sum_of(init) == init[0] + sum_of(init.subrange(1, init.len() as int)));
        assert(init[0] == s[0] && rest.last() == s.last());
        assert(sum_of(s) == s[0] + sum_of(rest));
    } else {
        assert(sum_of(s.drop_last()) == 0);
        assert(sum_of(s.subrange(1, s.len() as int)) == 0);
        assert(sum_of(s) == s[0] + sum_of(s.subrange(1, s.len() as int)));
    }
}

/// Heap initialization with a sequence of offsets, in call order, leaves the
/// heap start at its former value plus the sum of the offsets.
pub proof fn lemma_heap_after_is_sum(start: nat, offsets: Seq<nat>)
    ensures
        heap_after(start, offsets) == start + sum_of(offsets),
    decreases offsets.len(),
{
    if offsets.len() > 0 {
        lemma_heap_after_is_sum(start, offsets.drop_last());
        lemma_sum_of_push(offsets);
    }
}

/// Each `init_heap` call adds its offset to the heap start: the state after
/// one more call is the state before it plus that offset, as `heap_after`
/// counts it.
pub proof fn lemma_init_heap_step(before: HeapState, after: HeapState, offsets: Seq<nat>, offset: nat)
    requires
        before@ == heap_after(0, offsets),
        after@ == before@ + offset,
    ensures
        after@ == heap_after(0, offsets.push(offset)),
        after@ == sum_of(offsets.push(offset)),
{
    assert(offsets.push(offset).drop_last() =~= offsets);
    lemma_heap_after_is_sum(0, offsets.push(offset));
}

/// Initializing the heap twice with offset zero leaves the heap start as it was.
pub proof fn lemma_zero_offset_twice_keeps_heap(start: nat)
    ensures
        heap_after(start, seq![0nat, 0nat]) == start,
{
    let two = seq![0nat, 0nat];
    let one = seq![0nat];
    assert(two.drop_last() =~= one);
    assert(one.drop_last() =~= Seq::<nat>::empty());
    assert(heap_after(start, one) == heap_after(start, Seq::<nat>::empty()) + 0);
}

} // verus!
