use vstd::prelude::*;

use crate::employment::EmploymentEducation;
use crate::state::{
    cursor_after_next, cursor_after_previous, next_phase, offset_after_up, tick_due, toggled,
    LOADING_PHASES, LOADING_TICK_MS,
};

verus! {

/// The cursor after `k` steps forward from `cursor` in a list of `len` entries.
pub open spec fn cursor_after_nexts(cursor: int, len: int, k: nat) -> int
    decreases k,
{
    if k == 0 {
        cursor
    } else {
        cursor_after_next(cursor_after_nexts(cursor, len, (k - 1) as nat), len)
    }
}

/// The cursor after `k` steps back from `cursor`.
pub open spec fn cursor_after_previouses(cursor: int, k: nat) -> int
    decreases k,
{
    if k == 0 {
        cursor
    } else {
        cursor_after_previous(cursor_after_previouses(cursor, (k - 1) as nat))
    }
}

/// The scroll offset after scrolling up `k` times from `offset`.
pub open spec fn offset_after_ups(offset: int, k: nat) -> int
    decreases k,
{
    if k == 0 {
        offset
    } else {
        offset_after_up(offset_after_ups(offset, (k - 1) as nat))
    }
}

/// Phase and time of the last step of the loading animation after one update
/// at time `now`.
pub open spec fn after_tick(phase: int, last: int, now: int) -> (int, int) {
    if tick_due(last, now) {
        (next_phase(phase), now)
    } else {
        (phase, last)
    }
}

proof fn lemma_nexts_count(len: int, k: nat)
    requires
        k < len,
    ensures
        cursor_after_nexts(0, len, k) == k,
    decreases k,
{
    if k > 0 {
        lemma_nexts_count(len, (k - 1) as nat);
    }
}

proof fn lemma_previouses_count(top: int, k: nat)
    requires
        k <= top,
    ensures
        cursor_after_previouses(top, k) == top - k,
    decreases k,
{
    if k > 0 {
        lemma_previouses_count(top, (k - 1) as nat);
    }
}

/// In a non-empty list of `len` entries (employment or education alike),
/// `len - 1` steps forward from the first entry reach the last one, and a
/// further step stays there.
pub proof fn lemma_next_reaches_last(len: int)
    requires
        len > 0,
    ensures
        cursor_after_nexts(0, len, (len - 1) as nat) == len - 1,
        cursor_after_next(len - 1, len) == len - 1,
{
    lemma_nexts_count(len, (len - 1) as nat);
}

/// In a non-empty list of `len` entries (employment or education alike),
/// `len - 1` steps back from the last entry reach the first one, and a
/// further step stays there.
pub proof fn lemma_previous_reaches_first(len: int)
    requires
        len > 0,
    ensures
        cursor_after_previouses(len - 1, (len - 1) as nat) == 0,
        cursor_after_previous(0) == 0,
{
    lemma_previouses_count(len - 1, (len - 1) as nat);
}

/// Switching the active list twice gives back the list that was active.
pub proof fn lemma_toggle_twice(m: EmploymentEducation)
    ensures
        toggled(toggled(m)) == m,
{
}

/// Scrolling up never takes the offset below zero, however often it is
/// done; from zero it stays at zero.
pub proof fn lemma_scroll_up_floor(offset: int, k: nat)
    requires
        offset >= 0,
    ensures
        offset_after_ups(offset, k) >= 0,
        offset == 0 ==> offset_after_ups(offset, k) == 0,
    decreases k,
{
    if k > 0 {
        lemma_scroll_up_floor(offset, (k - 1) as nat);
    }
}

/// After a step of the loading animation at `t1`, an update at `t2` less
/// than the interval later leaves the phase alone, and one at least the
/// interval later moves it on by exactly one, modulo the number of phases.
pub proof fn lemma_tick_spacing(phase: int, last: int, t1: int, t2: int)
    requires
        0 <= phase < LOADING_PHASES,
        tick_due(last, t1),
    ensures
        ({
            let (p1, l1) = after_tick(phase, last, t1);
            let (p2, l2) = after_tick(p1, l1, t2);
            &&& p1 == (phase + 1) % (LOADING_PHASES as int)
            &&& t2 - t1 < LOADING_TICK_MS ==> p2 == p1 && l2 == t1
            &&& t2 - t1 >= LOADING_TICK_MS ==> p2 == (p1 + 1) % (LOADING_PHASES as int) && l2 == t2
        }),
{
}

} // verus!
