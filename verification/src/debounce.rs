//! The debounce filter: bursts of change notifications become one action.
//!
//! A single save often produces several notifications in quick succession.
//! The filter lets a notification through only when enough time has passed
//! since the last one it let through. Times and intervals are counted in
//! milliseconds on one monotonic clock.

use vstd::prelude::*;

verus! {

/// The number of milliseconds in a second.
pub const MILLIS_PER_SECOND: u64 = 1000;

/// Whether a notification at `now` passes, given the time of the last
/// accepted one: the time elapsed since then is at least `interval`.
pub open spec fn elapsed_enough(now: u64, last_accepted: u64, interval: u64) -> bool {
    now - last_accepted >= interval
}

/// What the filter remembers between notifications.
#[derive(Clone, Copy, Debug, PartialEq, Eq, Structural)]
pub struct DebounceState {
    /// When a notification last passed; `None` before the first one has.
    pub last_accepted_at: Option<u64>,
}

/// The state of a filter that has seen nothing yet.
pub open spec fn fresh() -> DebounceState {
    DebounceState { last_accepted_at: None }
}

/// Whether a filter in `state` lets a notification at `now` through: it has
/// let none through before, or enough time has passed since the last one.
pub open spec fn admits(state: DebounceState, now: u64, interval: u64) -> bool {
    match state.last_accepted_at {
        None => true,
        Some(last) => elapsed_enough(now, last, interval),
    }
}

/// The state of the filter after a notification at `now`: an accepted one
/// becomes the last accepted, a suppressed one leaves no trace.
pub open spec fn after(state: DebounceState, now: u64, interval: u64) -> DebounceState {
    if admits(state, now, interval) {
        DebounceState { last_accepted_at: Some(now) }
    } else {
        state
    }
}

/// How many of the notifications at `times`, taken in order, a filter that
/// starts in `state` lets through.
pub open spec fn accepted_count(state: DebounceState, interval: u64, times: Seq<u64>) -> nat
    decreases times.len(),
{
    if times.len() == 0 {
        0
    } else {
        let passed: nat = if admits(state, times[0], interval) {
            1
        } else {
            0
        };
        passed + accepted_count(after(state, times[0], interval), interval, times.drop_first())
    }
}

/// The interval of `seconds` in milliseconds, held at the largest value
/// that the clock can count where it would lie beyond it.
pub open spec fn millis_of_seconds(seconds: u64) -> u64 {
    if seconds * MILLIS_PER_SECOND <= u64::MAX {
        (seconds * MILLIS_PER_SECOND) as u64
    } else {
        u64::MAX
    }
}

/// Decides one notification against the last accepted one.
pub fn accept(now: u64, last_accepted: u64, interval: u64) -> (accepted: bool)
    ensures
        accepted == elapsed_enough(now, last_accepted, interval),
{
    now >= last_accepted && now - last_accepted >= interval
}

/// Converts an interval given in whole seconds to milliseconds.
pub fn interval_from_seconds(seconds: u64) -> (millis: u64)
    ensures
        millis == millis_of_seconds(seconds),
{
    if seconds > u64::MAX / MILLIS_PER_SECOND {
        u64::MAX
    } else {
        seconds * MILLIS_PER_SECOND
    }
}

impl DebounceState {
    /// A filter that has seen nothing yet.
    pub fn new() -> (state: DebounceState)
        ensures
            state == fresh(),
    {
        DebounceState { last_accepted_at: None }
    }

    /// Tells whether a notification at `now` would pass, without recording it.
    pub fn would_accept(&self, now: u64, interval: u64) -> (accepted: bool)
        ensures
            accepted == admits(*self, now, interval),
    {
        match self.last_accepted_at {
            None => true,
            Some(last) => accept(now, last, interval),
        }
    }

    /// Decides the notification at `now` and, when it passes, records it as
    /// the last accepted one.
    pub fn observe(&mut self, now: u64, interval: u64) -> (accepted: bool)
        ensures
            accepted == admits(*old(self), now, interval),
            *final(self) == after(*old(self), now, interval),
    {
        let accepted = self.would_accept(now, interval);
        if accepted {
            self.last_accepted_at = Some(now);
        }
        accepted
    }
}

/// The first notification passes, at any time and for any interval.
pub proof fn lemma_first_notification_passes(now: u64, interval: u64)
    ensures
        admits(fresh(), now, interval),
        after(fresh(), now, interval).last_accepted_at == Some(now),
{
}

/// Once a notification has passed at `first`, the next one passes exactly
/// when it comes at least `interval` later, whatever the filter had seen
/// before.
pub proof fn lemma_next_passes_after_interval(
    state: DebounceState,
    first: u64,
    second: u64,
    interval: u64,
)
    requires
        admits(state, first, interval),
    ensures
        admits(after(state, first, interval), second, interval) <==> second - first >= interval,
{
}

/// A suppressed notification changes nothing: what follows is decided as if
/// it had never come.
pub proof fn lemma_suppressed_leaves_no_trace(
    state: DebounceState,
    suppressed: u64,
    next: u64,
    interval: u64,
)
    requires
        !admits(state, suppressed, interval),
    ensures
        after(state, suppressed, interval) == state,
        admits(after(state, suppressed, interval), next, interval) == admits(state, next, interval),
{
}

/// Of two notifications that reach a filter which has seen nothing, one
/// passes when the second comes less than the interval after the first,
/// and both pass otherwise.
pub proof fn lemma_two_notifications(first: u64, second: u64, interval: u64)
    ensures
        second - first < interval ==> accepted_count(fresh(), interval, seq![first, second]) == 1,
        second - first >= interval ==> accepted_count(fresh(), interval, seq![first, second]) == 2,
{
    let times = seq![first, second];
    let rest = times.drop_first();
    assert(rest =~= seq![second]);
    assert(rest.drop_first() =~= Seq::<u64>::empty());
    let state = after(fresh(), first, interval);
    assert(accepted_count(after(state, second, interval), interval, rest.drop_first()) == 0);
    assert(accepted_count(state, interval, rest) == if admits(state, second, interval) {
        1nat
    } else {
        0nat
    });
}

} // verus!
