//! The account of outstanding blocks.
//!
//! The bridge keeps no books, and the host's own state is out of the guest's
//! sight. What can be said on the guest's side of the boundary is which
//! blocks the host has handed out and not yet taken back: that account follows
//! from the calls made and the answers received, and nothing is stored for it.
//! It is what the triple of a deallocate or resize call has to match.

use crate::allocator::ExternAllocator;
use crate::host::{Allocate, Deallocate, Resize};
use crate::layout::Layout;
use crate::pointer::{HostPointer, NO_MEMORY};
use vstd::multiset::Multiset;
use vstd::prelude::*;

verus! {

/// A block as the guest holds it: the address the host gave, with the size
/// and alignment last asked for. The three travel together.
pub struct MemoryBlock {
    pub ptr: HostPointer,
    pub size: usize,
    pub align: usize,
}

/// The account once the host has answered `call` with `answer`: one block
/// more, unless the answer is the sentinel.
pub open spec fn after_allocate(
    held: Multiset<MemoryBlock>,
    call: Allocate,
    answer: HostPointer,
) -> Multiset<MemoryBlock> {
    if answer@ == NO_MEMORY {
        held
    } else {
        held.insert(MemoryBlock { ptr: answer, size: call.size, align: call.align })
    }
}

/// The block that `call` gives back.
pub open spec fn released(call: Deallocate) -> MemoryBlock {
    MemoryBlock { ptr: call.ptr, size: call.size, align: call.align }
}

/// The account once `call` was made: the block it names is no longer held.
pub open spec fn after_deallocate(
    held: Multiset<MemoryBlock>,
    call: Deallocate,
) -> Multiset<MemoryBlock> {
    held.remove(released(call))
}

/// The block that `call` hands in for resizing.
pub open spec fn surrendered(call: Resize) -> MemoryBlock {
    MemoryBlock { ptr: call.ptr, size: call.size, align: call.align }
}

/// The account once the host has answered `call` with `answer`. The old block
/// is gone whatever the answer; unless the answer is the sentinel, a block of
/// the new size and the old alignment is held in its place.
pub open spec fn after_resize(
    held: Multiset<MemoryBlock>,
    call: Resize,
    answer: HostPointer,
) -> Multiset<MemoryBlock> {
    let rest = held.remove(surrendered(call));
    if answer@ == NO_MEMORY {
        rest
    } else {
        rest.insert(MemoryBlock { ptr: answer, size: call.new_size, align: call.align })
    }
}

/// An allocation that the host served, followed at once by the deallocation
/// of the block under the layout it was asked for, leaves the account as it
/// was; and the triple of that deallocation is one the guest then holds. An
/// allocation that the host refused leaves the account as it was by itself.
pub proof fn lemma_allocate_dealloc_round_trip(
    held: Multiset<MemoryBlock>,
    layout: Layout,
    answer: HostPointer,
)
    ensures
        answer@ == NO_MEMORY ==> after_allocate(
            held,
            ExternAllocator::allocate_call(layout),
            answer,
        ) == held,
        answer@ != NO_MEMORY ==> ({
            let granted = after_allocate(held, ExternAllocator::allocate_call(layout), answer);
            let release = ExternAllocator::dealloc_call(answer, layout);
            &&& granted.contains(released(release))
            &&& after_deallocate(granted, release) == held
        }),
{
    if answer@ != NO_MEMORY {
        let granted = after_allocate(held, ExternAllocator::allocate_call(layout), answer);
        let release = ExternAllocator::dealloc_call(answer, layout);
        assert(after_deallocate(granted, release) =~= held);
    }
}

/// After a resize that the host served, the block is held at the address the
/// host answered with, under the new size and the old alignment: deallocating
/// it under that layout matches, and leaves the account without the block
/// that was resized. After a resize that the host refused, the account is
/// without that block as well.
pub proof fn lemma_realloc_moves_block(
    held: Multiset<MemoryBlock>,
    ptr: HostPointer,
    layout: Layout,
    new_size: usize,
    resized: Layout,
    answer: HostPointer,
)
    requires
        resized.spec_size() == new_size,
        resized.spec_align() == layout.spec_align(),
    ensures
        ({
            let call = ExternAllocator::realloc_call(ptr, layout, new_size);
            let without = held.remove(surrendered(call));
            &&& surrendered(call) == released(ExternAllocator::dealloc_call(ptr, layout))
            &&& answer@ == NO_MEMORY ==> after_resize(held, call, answer) == without
            &&& answer@ != NO_MEMORY ==> ({
                let release = ExternAllocator::dealloc_call(answer, resized);
                &&& after_resize(held, call, answer).contains(released(release))
                &&& after_deallocate(after_resize(held, call, answer), release) == without
            })
        }),
{
    let call = ExternAllocator::realloc_call(ptr, layout, new_size);
    let without = held.remove(surrendered(call));
    if answer@ != NO_MEMORY {
        let release = ExternAllocator::dealloc_call(answer, resized);
        assert(after_deallocate(after_resize(held, call, answer), release) =~= without);
    }
}

} // verus!
