//! Addresses exchanged with the host.

use vstd::prelude::*;

verus! {

/// The address the host answers with when it has no memory to give.
pub const NO_MEMORY: usize = 0;

/// An address received from, or passed to, the host.
///
/// The guest never reads or writes through it: it is a token that names a
/// block on the host's side, and only the host gives it meaning.
#[derive(Clone, Copy, Debug, PartialEq, Eq, Hash)]
pub struct HostPointer {
    addr: usize,
}

impl View for HostPointer {
    type V = usize;

    closed spec fn view(&self) -> usize {
        self.addr
    }
}

impl HostPointer {
    /// Wraps an address as the host gave it.
    pub fn from_addr(addr: usize) -> (ptr: HostPointer)
        ensures
            ptr@ == addr,
    {
        HostPointer { addr }
    }

    /// The address, to be handed back to the host unchanged.
    pub fn addr(&self) -> (addr: usize)
        ensures
            addr == self@,
    {
        self.addr
    }

    /// The pointer that stands for "no memory".
    pub fn sentinel() -> (ptr: HostPointer)
        ensures
            ptr@ == NO_MEMORY,
    {
        HostPointer { addr: NO_MEMORY }
    }

    /// Whether this is the "no memory" pointer.
    pub fn is_sentinel(&self) -> (b: bool)
        ensures
            b == (self@ == NO_MEMORY),
    {
        self.addr == NO_MEMORY
    }
}

} // verus!
