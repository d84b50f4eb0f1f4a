//! The highlighted row of a list: moving it and keeping it on a row.
use vstd::prelude::*;

verus! {

/// The highlight is on a row of a list of `len` rows, and there is one
/// exactly when the list is not empty.
pub open spec fn selection_wf(sel: Option<usize>, len: nat) -> bool {
    match sel {
        Some(i) => i < len,
        None => len == 0,
    }
}

/// The row below `i` in a list of `len` rows, staying on the last one.
pub open spec fn row_below(i: usize, len: nat) -> usize {
    if i + 1 < len {
        (i + 1) as usize
    } else {
        (len - 1) as usize
    }
}

/// The row above `i`, staying on the first one.
pub open spec fn row_above(i: usize) -> usize {
    if i == 0 {
        0
    } else {
        (i - 1) as usize
    }
}

/// Moves the highlight one row down (`saturating_add(1)` then `min(len - 1)`).
pub fn select_next(sel: Option<usize>, len: usize) -> (r: Option<usize>)
    requires
        sel is Some ==> len > 0,
    ensures
        r == match sel {
            Some(i) => Some(row_below(i, len as nat)),
            None => None,
        },
{
    match sel {
        Some(i) => {
            let up = i.saturating_add(1);
            let last = len - 1;
            Some(
                if up < last {
                    up
                } else {
                    last
                },
            )
        },
        None => None,
    }
}

/// Moves the highlight one row up (`saturating_sub(1)`).
pub fn select_prev(sel: Option<usize>) -> (r: Option<usize>)
    ensures
        r == match sel {
            Some(i) => Some(row_above(i)),
            None => None,
        },
{
    match sel {
        Some(i) => Some(i.saturating_sub(1)),
        None => None,
    }
}

/// The highlight after the row `i` was removed from a list that now has
/// `len` rows.
pub open spec fn after_removal(i: usize, len: nat) -> Option<usize> {
    if len > 0 {
        Some(row_above(i))
    } else {
        None
    }
}

} // verus!
