//! Allocation descriptors: the size/alignment pairs recorded in a handle's
//! dispatch table and used by the external construction path to place a
//! caller-built payload behind a header.

use vstd::arithmetic::div_mod::{lemma_fundamental_div_mod, lemma_mod_multiples_basic};
use vstd::arithmetic::power::{lemma_pow_positive, pow};
use vstd::arithmetic::power2::{is_pow2, is_pow2_equiv, is_pow2_exists, lemma_pow2_adds, pow2};
use vstd::layout::valid_layout;
use vstd::prelude::*;

verus! {

/// Size and alignment of one memory region, as the dispatch table records it
/// for deallocation and as the external builder receives it for placement.
///
/// `wf` is exactly the condition under which the standard allocator accepts
/// the pair: the alignment is a power of two and the size stays within the
/// maximum that a rounded-up allocation may have.
#[derive(Clone, Copy, Debug, PartialEq, Eq, Structural)]
pub struct LayoutDesc {
    pub size: usize,
    pub align: usize,
}

impl LayoutDesc {
    pub open spec fn wf(self) -> bool {
        valid_layout(self.size, self.align)
    }

    /// The smallest offset at or past `self.size` where a region of
    /// alignment `next.align` may begin.
    pub open spec fn spec_offset_of(self, next: LayoutDesc) -> int {
        round_up(self.size as int, next.align as int)
    }

    /// Size of `self` extended by `next`: the payload begins at the rounded
    /// offset and the combined region ends right after it.
    pub open spec fn spec_extended_size(self, next: LayoutDesc) -> int {
        self.spec_offset_of(next) + next.size
    }

    /// Alignment of `self` extended by `next`.
    pub open spec fn spec_extended_align(self, next: LayoutDesc) -> int {
        vstd::math::max(self.align as int, next.align as int)
    }

    /// Whether extending `self` by `next` yields a size the allocator still
    /// accepts; when it does not, `extend` reports failure.
    pub open spec fn spec_can_extend(self, next: LayoutDesc) -> bool {
        fits_layout_bound(self.spec_extended_size(next), self.spec_extended_align(next))
    }

    /// Append a region of layout `next` to one of layout `self`, keeping
    /// `next`'s alignment: the combined layout and the offset at which the
    /// appended region begins.  Returns `None` exactly when the combined
    /// size exceeds what an allocation may have.
    pub fn extend(self, next: LayoutDesc) -> (r: Option<(LayoutDesc, usize)>)
        requires
            self.wf(),
            next.wf(),
        ensures
            r is Some <==> self.spec_can_extend(next),
            r is Some ==> ({
                let (combined, offset) = r.unwrap();
                &&& offset == self.spec_offset_of(next)
                &&& combined.size == self.spec_extended_size(next)
                &&& combined.align == self.spec_extended_align(next)
                &&& combined.wf()
            }),
    {
        proof {
            lemma_pow2_is_positive(next.align as int);
            lemma_pow2_is_positive(self.align as int);
        }
        let rem: usize = self.size % next.align;
        let offset: usize = if rem == 0 {
            self.size
        } else {
            match self.size.checked_add(next.align - rem) {
                Some(o) => o,
                None => {
                    proof {
                        lemma_round_up(self.size as int, next.align as int);
                    }
                    return None;
                },
            }
        };
        proof {
            lemma_round_up(self.size as int, next.align as int);
        }
        let size: usize = match offset.checked_add(next.size) {
            Some(s) => s,
            None => {
                return None;
            },
        };
        let align: usize = if self.align >= next.align {
            self.align
        } else {
            next.align
        };
        let cap: usize = (isize::MAX as usize) - ((isize::MAX as usize) % align);
        if size <= cap {
            Some((LayoutDesc { size, align }, offset))
        } else {
            None
        }
    }
}

/// The allocator's size bound for a region of the given alignment.
pub open spec fn fits_layout_bound(size: int, align: int) -> bool {
    size <= isize::MAX - (isize::MAX as int % align)
}

/// `size` rounded up to the next multiple of `align`.
pub open spec fn round_up(size: int, align: int) -> int
    recommends
        align > 0,
{
    if size % align == 0 {
        size
    } else {
        size + align - size % align
    }
}

/// `round_up` lands on a multiple of the alignment, never before `size`,
/// and less than one whole alignment past it.
pub proof fn lemma_round_up(size: int, align: int)
    requires
        size >= 0,
        align > 0,
    ensures
        round_up(size, align) % align == 0,
        size <= round_up(size, align) < size + align,
{
    let r = size % align;
    lemma_fundamental_div_mod(size, align);
    if r != 0 {
        assert(0 < r < align);
        let q = size / align;
        assert(size + align - r == align * (q + 1)) by (nonlinear_arith)
            requires
                size == align * q + r,
        ;
        lemma_mod_multiples_basic(q + 1, align);
    }
}

/// A power of two is positive.
pub proof fn lemma_pow2_is_positive(a: int)
    requires
        is_pow2(a),
    ensures
        a > 0,
{
    reveal(is_pow2);
}

/// Among two powers of two, the smaller divides the larger; in particular a
/// region aligned to the larger is aligned to the smaller as well.
pub proof fn lemma_pow2_divides(a: int, b: int)
    requires
        is_pow2(a),
        is_pow2(b),
        a <= b,
    ensures
        b % a == 0,
{
    lemma_pow2_is_positive(a);
    is_pow2_equiv(a);
    is_pow2_equiv(b);
    assert(is_pow2_exists(a) && is_pow2_exists(b));
    let i = choose|i: nat| pow(2, i) == a;
    let j = choose|j: nat| pow(2, j) == b;
    lemma_pow_positive(2, i);
    lemma_pow_positive(2, j);
    assert(pow2(i) == a && pow2(j) == b);
    if j < i {
        vstd::arithmetic::power2::lemma_pow2_strictly_increases(j, i);
    }
    assert(i <= j);
    lemma_pow2_adds((j - i) as nat, i);
    assert(b == pow2((j - i) as nat) * a);
    lemma_mod_multiples_basic(pow2((j - i) as nat) as int, a);
}

} // verus!
