//! Placing a requested window on the page grid.
use vstd::prelude::*;

verus! {

/// A window `[start, start + len)` widened down to the nearest multiple of the
/// granularity.
#[derive(Clone, Copy, Debug, PartialEq, Eq, Hash, Structural)]
pub struct Placement {
    /// How far the requested start lies past the aligned start.
    pub alignment: usize,
    /// The requested start rounded down to the granularity.
    pub aligned_start: usize,
    /// The requested length plus the alignment.
    pub aligned_len: usize,
}

/// Whether `p` is the placement of `[start, start + len)` on a grid of `granularity`.
pub open spec fn is_placement(p: Placement, start: usize, len: usize, granularity: usize) -> bool {
    &&& p.alignment == start % granularity
    &&& p.aligned_start == start - p.alignment
    &&& p.aligned_len == len + p.alignment
}

/// Places `[start, start + len)` on a grid of `granularity`; `None` when the
/// widened length does not fit in `usize`.
pub fn place(start: usize, len: usize, granularity: usize) -> (r: Option<Placement>)
    requires
        granularity > 0,
    ensures
        r is Some <==> len + start % granularity <= usize::MAX,
        r matches Some(p) ==> is_placement(p, start, len, granularity),
        r matches Some(p) ==> p.alignment < granularity && p.aligned_start % granularity == 0,
{
    let alignment = start % granularity;
    proof {
        lemma_aligned_start(start as int, granularity as int);
    }
    if len > usize::MAX - alignment {
        return None;
    }
    let p = Placement { alignment, aligned_start: start - alignment, aligned_len: len + alignment };
    Some(p)
}

/// Rounding down to a multiple of the granularity lands on the grid.
proof fn lemma_aligned_start(start: int, g: int)
    requires
        start >= 0,
        g > 0,
    ensures
        (start - start % g) % g == 0,
        0 <= start % g < g,
        start % g <= start,
{
    vstd::arithmetic::div_mod::lemma_div_pos_is_pos(start, g);
    assert(g * (start / g) >= 0) by (nonlinear_arith)
        requires
            g > 0,
            start / g >= 0,
    ;
    vstd::arithmetic::div_mod::lemma_fundamental_div_mod(start, g);
    vstd::arithmetic::div_mod::lemma_mod_multiples_basic(start / g, g);
    assert(start - start % g == (start / g) * g) by (nonlinear_arith)
        requires
            start == g * (start / g) + start % g,
    ;
}

} // verus!
