//! What holds of the timer across its operations.
//!
//! Each law is stated over the model in [`crate::model`], which is what the
//! contracts of [`crate::state::AppState`] speak of: a law about the model's
//! steps is a law about the calls that take them.

use crate::model::{duration_of, never_goes_back, Timer, NANOS_PER_SEC};
use vstd::prelude::*;

verus! {

/// Every countdown that can be asked for is a whole number of seconds and
/// lasts at least one.
pub proof fn lemma_duration_is_whole_seconds(minutes: nat, seconds: nat)
    ensures
        duration_of(minutes, seconds) >= NANOS_PER_SEC,
        duration_of(minutes, seconds) % (NANOS_PER_SEC as nat) == 0,
        minutes * 60 + seconds > 0 ==> duration_of(minutes, seconds) == (minutes * 60 + seconds)
            * NANOS_PER_SEC,
        minutes * 60 + seconds == 0 ==> duration_of(minutes, seconds) == NANOS_PER_SEC,
{
    let total = minutes * 60 + seconds;
    assert((total * 1_000_000_000) % 1_000_000_000 == 0) by (nonlinear_arith);
}

/// A new timer is well formed, applying a duration makes any timer well
/// formed, and every other operation keeps a well-formed timer well formed.
pub proof fn lemma_operations_keep_wf(t: Timer, minutes: nat, seconds: nat, now: nat)
    ensures
        Timer::initial().wf(),
        t.apply_duration(minutes, seconds).wf(),
        t.wf() ==> t.start().wf(),
        t.wf() ==> t.pause().wf(),
        t.wf() ==> t.toggle().wf(),
        t.wf() ==> t.reset().wf(),
        t.wf() ==> t.acknowledge().wf(),
        t.wf() ==> t.advance(now).wf(),
{
    lemma_duration_is_whole_seconds(minutes, seconds);
}

/// Only applying a duration, resetting and observing the clock change what
/// is left, and only applying a duration changes the configured countdown:
/// starting, pausing, toggling and acknowledging leave both alone, and
/// acknowledging leaves everything alone but the pending completion.
pub proof fn lemma_controls_leave_durations_alone(t: Timer, now: nat)
    ensures
        t.start().configured == t.configured && t.start().remaining == t.remaining,
        t.pause().configured == t.configured && t.pause().remaining == t.remaining,
        t.toggle().configured == t.configured && t.toggle().remaining == t.remaining,
        t.acknowledge() == (Timer { completion_pending: false, ..t }),
        t.reset().configured == t.configured,
        t.advance(now).configured == t.configured,
        t.start().completion_pending == t.completion_pending,
        t.pause().completion_pending == t.completion_pending,
        t.toggle().completion_pending == t.completion_pending,
{
}

/// Starting twice is starting once, pausing twice is pausing once, and
/// acknowledging twice is acknowledging once. Pausing a timer that is
/// stopped without a baseline, and acknowledging when no completion is
/// pending, change nothing.
pub proof fn lemma_controls_are_idempotent(t: Timer)
    ensures
        t.start().start() == t.start(),
        t.pause().pause() == t.pause(),
        t.acknowledge().acknowledge() == t.acknowledge(),
        t.reset().reset() == t.reset(),
        !t.running && t.last_observed is None ==> t.pause() == t,
        !t.completion_pending ==> t.acknowledge() == t,
{
}

/// A reset is a pause followed by applying the configured countdown anew.
pub proof fn lemma_reset_is_pause_then_apply(t: Timer, minutes: nat, seconds: nat)
    requires
        t.configured == duration_of(minutes, seconds),
    ensures
        t.reset() == t.pause().apply_duration(minutes, seconds),
{
}

/// Observing the clock, once or over and over, never adds to what is left
/// and never touches the configured countdown; and it keeps a well-formed
/// timer well formed.
pub proof fn lemma_run_only_counts_down(t: Timer, instants: Seq<nat>)
    ensures
        t.run(instants).remaining <= t.remaining,
        t.run(instants).configured == t.configured,
        t.wf() ==> t.run(instants).wf(),
    decreases instants.len(),
{
    if instants.len() > 0 {
        lemma_run_only_counts_down(t, instants.drop_last());
    }
}

/// A countdown that has just been started, observed at instants that never
/// go back and that span less than what is left, is still running: what is
/// left has gone down by exactly the span, and it has not completed.
pub proof fn lemma_run_in_progress(t: Timer, instants: Seq<nat>)
    requires
        t.running,
        t.last_observed is None,
        instants.len() >= 1,
        never_goes_back(instants),
        instants.last() - instants[0] < t.remaining,
    ensures
        t.run(instants) == (Timer {
            remaining: (t.remaining - (instants.last() - instants[0])) as nat,
            last_observed: Some(instants.last()),
            ..t
        }),
        t.completions(instants) == 0,
    decreases instants.len(),
{
    let earlier = instants.drop_last();
    if instants.len() == 1 {
        assert(t.run(earlier) == t);
        assert(t.completions(earlier) == 0);
    } else {
        assert(earlier[0] == instants[0]);
        assert(earlier.last() == instants[instants.len() - 2]);
        lemma_run_in_progress(t, earlier);
    }
}

/// A countdown that has just been started, observed at instants that never
/// go back and that span exactly what is left, ends stopped, with nothing
/// left and its completion pending; and it completes at exactly one of the
/// observations, however finely the span is split.
pub proof fn lemma_run_completes_once(t: Timer, instants: Seq<nat>)
    requires
        t.running,
        t.last_observed is None,
        t.remaining > 0,
        instants.len() >= 1,
        never_goes_back(instants),
        instants.last() - instants[0] == t.remaining,
    ensures
        t.run(instants).remaining == 0,
        !t.run(instants).running,
        t.run(instants).completion_pending,
        t.run(instants).configured == t.configured,
        t.completions(instants) == 1,
    decreases instants.len(),
{
    let earlier = instants.drop_last();
    assert(instants.len() >= 2);
    assert(earlier[0] == instants[0]);
    assert(earlier.last() == instants[instants.len() - 2]);
    if earlier.last() - earlier[0] < t.remaining {
        lemma_run_in_progress(t, earlier);
    } else {
        lemma_run_completes_once(t, earlier);
    }
}

/// Whatever the timer held before: once a duration is applied and the
/// countdown started, observations that never go back and that span exactly
/// that duration leave nothing, stop the timer and leave its completion
/// pending; the countdown completes at exactly one of them, however finely
/// the span is split.
pub proof fn lemma_countdown_completes_once(
    t: Timer,
    minutes: nat,
    seconds: nat,
    instants: Seq<nat>,
)
    requires
        instants.len() >= 1,
        never_goes_back(instants),
        instants.last() - instants[0] == duration_of(minutes, seconds),
    ensures
        t.apply_duration(minutes, seconds).start().run(instants).remaining == 0,
        !t.apply_duration(minutes, seconds).start().run(instants).running,
        t.apply_duration(minutes, seconds).start().run(instants).completion_pending,
        t.apply_duration(minutes, seconds).start().completions(instants) == 1,
{
    lemma_duration_is_whole_seconds(minutes, seconds);
    lemma_run_completes_once(t.apply_duration(minutes, seconds).start(), instants);
}

/// Observing the clock changes nothing of a stopped timer but its baseline,
/// which it forgets; so a second observation changes nothing at all, and
/// none of them completes a countdown.
pub proof fn lemma_stopped_timer_ignores_clock(t: Timer, now: nat, later: nat)
    requires
        !t.running,
    ensures
        t.advance(now) == (Timer { last_observed: None, ..t }),
        t.advance(now).advance(later) == t.advance(now),
        !t.completes_at(now),
        !t.advance(now).completes_at(later),
{
}

/// Once a countdown has completed, observing the clock again neither
/// changes what is left nor reports the completion again: not while the
/// completion is pending, and not after it has been acknowledged.
pub proof fn lemma_completion_fires_once(t: Timer, now: nat, later: nat)
    requires
        t.completes_at(now),
    ensures
        t.advance(now).remaining == 0,
        !t.advance(now).running,
        t.advance(now).completion_pending,
        !t.advance(now).completes_at(later),
        t.advance(now).advance(later).remaining == 0,
        !t.advance(now).advance(later).running,
        t.advance(now).advance(later).completion_pending,
        !t.advance(now).acknowledge().completes_at(later),
        t.advance(now).acknowledge().advance(later).remaining == 0,
        !t.advance(now).acknowledge().advance(later).completion_pending,
{
}

/// Pausing and starting again charges nothing: the first observation after
/// the start only takes the baseline, whatever the clock shows, and a second
/// observation at that same instant finds that no time has passed.
pub proof fn lemma_resume_charges_nothing(t: Timer, now: nat)
    ensures
        t.pause().start().advance(now).remaining == t.remaining,
        t.pause().start().advance(now).last_observed == Some(now),
        t.pause().start().advance(now).advance(now).remaining == t.remaining,
{
}

/// A clock that has moved forward charges the distance it has moved: while
/// that is less than what is left, what is left goes down by exactly that
/// much and the countdown runs on from the new baseline.
pub proof fn lemma_forward_clock_charges_the_distance(t: Timer, prev: nat, now: nat)
    requires
        t.running,
        t.last_observed == Some(prev),
        prev <= now,
        now - prev < t.remaining,
    ensures
        t.advance(now) == (Timer {
            remaining: (t.remaining - (now - prev)) as nat,
            last_observed: Some(now),
            ..t
        }),
        now > prev ==> t.advance(now).remaining < t.remaining,
        !t.completes_at(now),
{
}

/// A clock that stands still or runs backwards charges nothing: an
/// observation at or before the baseline leaves what is left as it was.
pub proof fn lemma_backward_clock_charges_nothing(t: Timer, prev: nat, now: nat)
    requires
        t.last_observed == Some(prev),
        now <= prev,
    ensures
        t.elapsed(now) == 0,
        t.advance(now).remaining == t.remaining,
{
}

/// A reset winds any timer back to its configured countdown, stopped and
/// with no completion pending, however far the countdown had got.
pub proof fn lemma_reset_restores_configured(t: Timer, instants: Seq<nat>)
    ensures
        t.run(instants).reset().remaining == t.configured,
        t.run(instants).reset().configured == t.configured,
        !t.run(instants).reset().running,
        !t.run(instants).reset().completion_pending,
{
    lemma_run_only_counts_down(t, instants);
}

} // verus!
