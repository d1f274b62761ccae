//! The allocation bridge.
//!
//! The bridge has no policy and keeps no books. Each request of the runtime
//! becomes one call of one host primitive, with the runtime's own arguments
//! unchanged; what the host answers goes back to the runtime as it came.

use crate::host::{Allocate, Deallocate, Resize};
use crate::layout::Layout;
use crate::pointer::HostPointer;
use vstd::prelude::*;

verus! {

/// The allocator that forwards every request to the host.
///
/// It has no fields, so it can be built before any code runs and there is
/// nothing in it to initialise or to lock.
#[derive(Clone, Copy, Debug, PartialEq, Eq)]
pub struct ExternAllocator;

impl ExternAllocator {
    /// The call that `allocate` makes for `layout`.
    pub open spec fn allocate_call(layout: Layout) -> Allocate {
        Allocate { size: layout.spec_size(), align: layout.spec_align() }
    }

    /// The call that `dealloc` makes for the block at `ptr` held under
    /// `layout`.
    pub open spec fn dealloc_call(ptr: HostPointer, layout: Layout) -> Deallocate {
        Deallocate { ptr, size: layout.spec_size(), align: layout.spec_align() }
    }

    /// The call that `realloc` makes to bring the block at `ptr`, held under
    /// `layout`, to `new_size` bytes.
    pub open spec fn realloc_call(ptr: HostPointer, layout: Layout, new_size: usize) -> Resize {
        Resize { ptr, size: layout.spec_size(), align: layout.spec_align(), new_size }
    }

    /// Asks the host for a block of `layout.size()` bytes aligned to
    /// `layout.align()`.
    ///
    /// The host's answer is the result of the allocation: the block's
    /// address, or the sentinel when the host has no memory to give.
    pub fn allocate(&self, layout: Layout) -> (call: Allocate)
        ensures
            call == Self::allocate_call(layout),
    {
        Allocate { size: layout.size(), align: layout.align() }
    }

    /// Gives the block at `ptr` back to the host, under the size and
    /// alignment it was obtained with.
    pub fn dealloc(&self, ptr: HostPointer, layout: Layout) -> (call: Deallocate)
        ensures
            call == Self::dealloc_call(ptr, layout),
    {
        Deallocate { ptr, size: layout.size(), align: layout.align() }
    }

    /// Asks the host to bring the block at `ptr` to `new_size` bytes.
    ///
    /// The host's answer is the result: the address of a block of `new_size`
    /// bytes with the old alignment, or the sentinel. After the call `ptr` is
    /// no longer the caller's to use, whatever the answer.
    pub fn realloc(&self, ptr: HostPointer, layout: Layout, new_size: usize) -> (call: Resize)
        ensures
            call == Self::realloc_call(ptr, layout, new_size),
    {
        Resize { ptr, size: layout.size(), align: layout.align(), new_size }
    }
}

} // verus!
