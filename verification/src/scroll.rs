//! Scroll offsets: how far a list may be scrolled, and how an offset follows
//! the selected row.

use vstd::prelude::*;

verus! {

/// The largest offset of a list of `count` rows in a window of `height`
/// rows: the offset at which the last row stands at the bottom.
pub open spec fn max_offset(count: nat, height: nat) -> nat {
    if count > height {
        (count - height) as nat
    } else {
        0
    }
}

/// An offset brought down to the largest one allowed.
pub open spec fn clamped(scroll: nat, height: nat, count: nat) -> nat {
    if scroll > max_offset(count, height) {
        max_offset(count, height)
    } else {
        scroll
    }
}

/// The offset after it has followed the selected row: moved up to the row
/// where the row stood above the window, moved down until the row is the
/// last one in the window where it stood below, and then brought down to the
/// largest offset allowed.
pub open spec fn follow(row: nat, scroll: nat, height: nat, count: nat) -> nat {
    let moved = if row < scroll {
        row
    } else if height > 0 && row >= scroll + height {
        (row - height + 1) as nat
    } else {
        scroll
    };
    clamped(moved, height, count)
}

/// After following, the offset is within its bound and the selected row is
/// inside the window.
pub proof fn lemma_follow_window(row: nat, scroll: nat, height: nat, count: nat)
    ensures
        follow(row, scroll, height, count) <= max_offset(count, height),
        follow(row, scroll, height, count) <= row,
        row < count && height > 0 ==> row < follow(row, scroll, height, count) + height,
{
}

/// An offset that is within its bound and shows the selected row stays as
/// it is.
pub proof fn lemma_follow_stable(row: nat, scroll: nat, height: nat, count: nat)
    requires
        scroll <= max_offset(count, height),
        scroll <= row,
        height > 0 ==> row < scroll + height,
    ensures
        follow(row, scroll, height, count) == scroll,
{
}

/// The largest offset of a list of `count` rows in a window of `height`
/// rows.
pub fn max_offset_of(count: usize, height: usize) -> (max: usize)
    ensures
        max == max_offset(count as nat, height as nat),
{
    if count > height {
        count - height
    } else {
        0
    }
}

/// Brings an offset down to the largest one allowed.
pub fn clamp_offset(scroll: usize, height: usize, count: usize) -> (offset: usize)
    ensures
        offset == clamped(scroll as nat, height as nat, count as nat),
{
    let max = max_offset_of(count, height);
    if scroll > max {
        max
    } else {
        scroll
    }
}

/// Lets an offset follow the selected row.
pub fn follow_row(row: usize, scroll: usize, height: usize, count: usize) -> (offset: usize)
    ensures
        offset == follow(row as nat, scroll as nat, height as nat, count as nat),
{
    let moved = if row < scroll {
        row
    } else if height > 0 && row - scroll >= height {
        row - height + 1
    } else {
        scroll
    };
    clamp_offset(moved, height, count)
}

} // verus!
