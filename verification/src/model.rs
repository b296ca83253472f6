//! The countdown timer as a mathematical object.
//!
//! Durations and instants are natural numbers of nanoseconds. An instant
//! counts from an origin that the caller picks once and keeps; the timer only
//! ever looks at the distance between two instants. Every operation of the
//! timer is a total function from one [`Timer`] to the next.

use vstd::prelude::*;

verus! {

/// Nanoseconds in one second.
pub const NANOS_PER_SEC: u128 = 1_000_000_000;

/// The countdown that a new timer is configured with, in seconds: five minutes.
pub const DEFAULT_SECS: u64 = 300;

/// The countdown, in nanoseconds, that `minutes` and `seconds` ask for.
///
/// A request for no time at all is not an error: it is taken as a request
/// for the shortest countdown, one second.
pub open spec fn duration_of(minutes: nat, seconds: nat) -> nat {
    let total = minutes * 60 + seconds;
    if total == 0 {
        NANOS_PER_SEC as nat
    } else {
        total * (NANOS_PER_SEC as nat)
    }
}

/// Whether no instant of `instants` lies before an earlier one.
pub open spec fn never_goes_back(instants: Seq<nat>) -> bool {
    forall|i: int, j: int| 0 <= i <= j < instants.len() ==> instants[i] <= instants[j]
}

/// The state of a countdown timer.
pub struct Timer {
    /// The countdown set by the last apply, in nanoseconds.
    pub configured: nat,
    /// What is left of the countdown, in nanoseconds.
    pub remaining: nat,
    /// Whether elapsed time is being charged against `remaining`.
    pub running: bool,
    /// The instant up to which elapsed time has been charged, if a baseline
    /// has been taken since the countdown was last started.
    pub last_observed: Option<nat>,
    /// Whether the countdown has reached zero and nobody has acknowledged it.
    pub completion_pending: bool,
}

impl Timer {
    /// What holds of every timer that the operations can produce: the
    /// configured countdown is a whole number of seconds and at least one,
    /// no more is left than was configured, and a completion is pending only
    /// while nothing is left.
    pub open spec fn wf(self) -> bool {
        &&& self.configured >= NANOS_PER_SEC
        &&& self.configured % (NANOS_PER_SEC as nat) == 0
        &&& self.remaining <= self.configured
        &&& self.completion_pending ==> self.remaining == 0
    }

    /// A new timer: five minutes configured and left, not running.
    pub open spec fn initial() -> Timer {
        Timer {
            configured: DEFAULT_SECS as nat * NANOS_PER_SEC as nat,
            remaining: DEFAULT_SECS as nat * NANOS_PER_SEC as nat,
            running: false,
            last_observed: None,
            completion_pending: false,
        }
    }

    /// Sets a new countdown of `minutes` and `seconds`. This stops a
    /// countdown in progress and drops a pending completion: the new
    /// countdown replaces the old one, it is not added to it.
    pub open spec fn apply_duration(self, minutes: nat, seconds: nat) -> Timer {
        Timer {
            configured: duration_of(minutes, seconds),
            remaining: duration_of(minutes, seconds),
            running: false,
            last_observed: None,
            completion_pending: false,
        }
    }

    /// Starts the countdown. The baseline is dropped, so that the next
    /// observation takes a fresh one and charges nothing.
    pub open spec fn start(self) -> Timer {
        Timer { running: true, last_observed: None, ..self }
    }

    /// Pauses the countdown.
    pub open spec fn pause(self) -> Timer {
        Timer { running: false, last_observed: None, ..self }
    }

    /// Pauses a running countdown and starts a stopped one.
    pub open spec fn toggle(self) -> Timer {
        if self.running {
            self.pause()
        } else {
            self.start()
        }
    }

    /// Stops the countdown and winds it back to the configured length.
    pub open spec fn reset(self) -> Timer {
        Timer {
            remaining: self.configured,
            running: false,
            last_observed: None,
            completion_pending: false,
            ..self
        }
    }

    /// Acknowledges a pending completion.
    pub open spec fn acknowledge(self) -> Timer {
        Timer { completion_pending: false, ..self }
    }

    /// The time that an observation at `now` charges: the distance from the
    /// baseline to `now`, and nothing where there is no baseline or `now`
    /// lies before it.
    pub open spec fn elapsed(self, now: nat) -> nat {
        match self.last_observed {
            Some(prev) if now >= prev => (now - prev) as nat,
            _ => 0,
        }
    }

    /// Whether an observation at `now` completes the countdown: the timer is
    /// running from a baseline, and the time since then uses up what is left.
    pub open spec fn completes_at(self, now: nat) -> bool {
        &&& self.running
        &&& self.last_observed is Some
        &&& self.elapsed(now) >= self.remaining
    }

    /// Observes the clock at `now`.
    ///
    /// A stopped timer only forgets its baseline. A running timer without a
    /// baseline takes `now` as its baseline and charges nothing. Otherwise
    /// the time since the baseline is charged, `now` becomes the baseline,
    /// and the countdown completes if nothing is left.
    pub open spec fn advance(self, now: nat) -> Timer {
        if !self.running {
            Timer { last_observed: None, ..self }
        } else if self.last_observed is None {
            Timer { last_observed: Some(now), ..self }
        } else if self.elapsed(now) >= self.remaining {
            Timer {
                remaining: 0,
                running: false,
                last_observed: Some(now),
                completion_pending: true,
                ..self
            }
        } else {
            Timer {
                remaining: (self.remaining - self.elapsed(now)) as nat,
                last_observed: Some(now),
                ..self
            }
        }
    }

    /// Observes the clock at each of `instants` in turn.
    pub open spec fn run(self, instants: Seq<nat>) -> Timer
        decreases instants.len(),
    {
        if instants.len() == 0 {
            self
        } else {
            self.run(instants.drop_last()).advance(instants.last())
        }
    }

    /// At how many of `instants`, observed in turn, the countdown completes.
    pub open spec fn completions(self, instants: Seq<nat>) -> nat
        decreases instants.len(),
    {
        if instants.len() == 0 {
            0
        } else {
            let before = self.run(instants.drop_last());
            let fired: nat = if before.completes_at(instants.last()) {
                1
            } else {
                0
            };
            self.completions(instants.drop_last()) + fired
        }
    }

    /// The effect of one frame's keyboard shortcuts, in the order in which
    /// a frame handles them: `space` toggles, `reset` resets, and `escape`
    /// acknowledges a pending completion.
    pub open spec fn keys(self, space: bool, reset: bool, escape: bool) -> Timer {
        let toggled = if space {
            self.toggle()
        } else {
            self
        };
        let wound = if reset {
            toggled.reset()
        } else {
            toggled
        };
        if escape {
            wound.acknowledge()
        } else {
            wound
        }
    }

    /// Whether the display has to be drawn again soon without waiting for
    /// input: the reading is changing, or a completion is being shown.
    pub open spec fn wants_frame(self) -> bool {
        self.running || self.completion_pending
    }
}

} // verus!
