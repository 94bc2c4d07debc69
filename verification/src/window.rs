//! The window of a chain that is kept after burn-in.
//!
//! The percentages of the window are turned into indices by the caller; the
//! indices are clamped to the chain and ordered here, so that no window,
//! however it was asked for, makes the slicing panic.

use vstd::prelude::*;

verus! {

/// The bounds `(lo, hi)` of the window asked for by `lo_index` and
/// `hi_index` in a chain of `len` samples: each clamped to `len`, and `hi`
/// raised to `lo` where it lies below it.
pub open spec fn spec_window_bounds(len: nat, lo_index: nat, hi_index: nat) -> (nat, nat) {
    let lo = if lo_index <= len {
        lo_index
    } else {
        len
    };
    let hi_clamped = if hi_index <= len {
        hi_index
    } else {
        len
    };
    let hi = if hi_clamped >= lo {
        hi_clamped
    } else {
        lo
    };
    (lo, hi)
}

/// A window that lies inside the chain is kept as asked; an end past the
/// chain is cut back to the chain's end; a window that ends before it starts,
/// or starts past the chain, is empty.
pub proof fn lemma_window_kept_as_asked(len: nat, lo_index: nat, hi_index: nat)
    ensures
        lo_index <= hi_index <= len ==> spec_window_bounds(len, lo_index, hi_index) == (
        lo_index,
        hi_index,
        ),
        lo_index <= len < hi_index ==> spec_window_bounds(len, lo_index, hi_index) == (
        lo_index,
        len,
        ),
        hi_index < lo_index <= len ==> spec_window_bounds(len, lo_index, hi_index) == (
        lo_index,
        lo_index,
        ),
        len < lo_index ==> spec_window_bounds(len, lo_index, hi_index) == (len, len),
        spec_window_bounds(len, lo_index, hi_index).0 <= spec_window_bounds(
            len,
            lo_index,
            hi_index,
        ).1 <= len,
{
}

/// The clamped and ordered bounds of a window of a chain of `len` samples.
/// The bounds always describe a valid slice, `lo <= hi <= len`, which is
/// empty where the asked-for window is degenerate or the chain is empty.
pub fn window_bounds(len: usize, lo_index: usize, hi_index: usize) -> (bounds: (usize, usize))
    ensures
        (bounds.0 as nat, bounds.1 as nat) == spec_window_bounds(
            len as nat,
            lo_index as nat,
            hi_index as nat,
        ),
        bounds.0 <= bounds.1 <= len,
        len == 0 ==> bounds.0 == 0 && bounds.1 == 0,
        lo_index <= hi_index <= len ==> bounds.0 == lo_index && bounds.1 == hi_index,
        lo_index <= len ==> bounds.0 == lo_index,
        lo_index > len ==> bounds.0 == len,
        lo_index <= len < hi_index ==> bounds.1 == len,
        hi_index < lo_index ==> bounds.1 == bounds.0,
{
    proof {
        lemma_window_kept_as_asked(len as nat, lo_index as nat, hi_index as nat);
    }
    let lo = if lo_index <= len {
        lo_index
    } else {
        len
    };
    let hi_clamped = if hi_index <= len {
        hi_index
    } else {
        len
    };
    let hi = if hi_clamped >= lo {
        hi_clamped
    } else {
        lo
    };
    (lo, hi)
}

/// The samples of `chain` that lie in the window asked for by `lo_index` and
/// `hi_index`, clamped and ordered as `window_bounds` does.
pub fn sample_window<T>(chain: &[T], lo_index: usize, hi_index: usize) -> (window: &[T])
    ensures
        window@ == chain@.subrange(
            spec_window_bounds(chain@.len(), lo_index as nat, hi_index as nat).0 as int,
            spec_window_bounds(chain@.len(), lo_index as nat, hi_index as nat).1 as int,
        ),
        lo_index <= hi_index <= chain@.len() ==> window@ == chain@.subrange(
            lo_index as int,
            hi_index as int,
        ),
        lo_index <= chain@.len() < hi_index ==> window@ == chain@.subrange(
            lo_index as int,
            chain@.len() as int,
        ),
        hi_index < lo_index || chain@.len() < lo_index ==> window@.len() == 0,
{
    let (lo, hi) = window_bounds(chain.len(), lo_index, hi_index);
    &chain[lo..hi]
}

} // verus!
