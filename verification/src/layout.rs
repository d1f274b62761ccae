//! Allocation requests.

use vstd::arithmetic::power2::is_pow2;
use vstd::prelude::*;

verus! {

/// Whether `n` is a power of two.
pub fn is_power_of_two(n: usize) -> (b: bool)
    ensures
        b == is_pow2(n as int),
{
    if n == 0 {
        proof {
            reveal(is_pow2);
        }
        return false;
    }
    let mut m: usize = n;
    while m % 2 == 0
        invariant
            0 < m <= n,
            is_pow2(m as int) == is_pow2(n as int),
        decreases m,
    {
        proof {
            reveal(is_pow2);
        }
        m = m / 2;
    }
    proof {
        reveal(is_pow2);
    }
    m == 1
}

/// The size and alignment of one block of memory, as the runtime asks for it.
///
/// The alignment of every `Layout` is a power of two.
#[derive(Clone, Copy, Debug, PartialEq, Eq, Hash)]
pub struct Layout {
    size: usize,
    align: usize,
}

impl Layout {
    #[verifier::type_invariant]
    spec fn aligned_to_power_of_two(self) -> bool {
        is_pow2(self.align as int)
    }

    /// The number of bytes asked for.
    pub closed spec fn spec_size(self) -> usize {
        self.size
    }

    /// The alignment asked for.
    pub closed spec fn spec_align(self) -> usize {
        self.align
    }

    /// The request for `size` bytes aligned to `align`, if `align` is a power
    /// of two.
    pub fn from_size_align(size: usize, align: usize) -> (layout: Option<Layout>)
        ensures
            layout is Some <==> is_pow2(align as int),
            layout matches Some(l) ==> l.spec_size() == size && l.spec_align() == align,
    {
        if is_power_of_two(align) {
            Some(Layout { size, align })
        } else {
            None
        }
    }

    /// The number of bytes asked for.
    pub fn size(&self) -> (size: usize)
        ensures
            size == self.spec_size(),
    {
        self.size
    }

    /// The alignment asked for: a power of two.
    pub fn align(&self) -> (align: usize)
        ensures
            align == self.spec_align(),
            is_pow2(align as int),
    {
        proof {
            use_type_invariant(self);
        }
        self.align
    }
}

} // verus!
