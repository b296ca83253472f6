//! The executable countdown timer.
//!
//! [`AppState`] holds one timer. It never reads a clock: the caller hands
//! each observation in as a number of nanoseconds since an origin of its own
//! choosing. Every operation is total, and says of itself which step of the
//! model in [`crate::model`] it takes.

use crate::model::{Timer, DEFAULT_SECS, NANOS_PER_SEC};
use vstd::prelude::*;

verus! {

/// The interval, in milliseconds, after which the display is drawn again
/// while [`AppState::needs_repaint`] holds.
pub const FRAME_INTERVAL_MILLIS: u64 = 16;

/// A countdown timer.
#[derive(Clone, Copy, Debug)]
pub struct AppState {
    configured_secs: u64,
    remaining: u128,
    running: bool,
    last_tick: Option<u128>,
    finished_modal: bool,
}

impl View for AppState {
    type V = Timer;

    closed spec fn view(&self) -> Timer {
        Timer {
            configured: self.configured_secs as nat * NANOS_PER_SEC as nat,
            remaining: self.remaining as nat,
            running: self.running,
            last_observed: match self.last_tick {
                Some(at) => Some(at as nat),
                None => None,
            },
            completion_pending: self.finished_modal,
        }
    }
}

impl Default for AppState {
    /// A new timer: five minutes configured and left, not running.
    fn default() -> (state: AppState)
        ensures
            state@ == Timer::initial(),
            state@.wf(),
    {
        AppState {
            configured_secs: DEFAULT_SECS,
            remaining: DEFAULT_SECS as u128 * NANOS_PER_SEC,
            running: false,
            last_tick: None,
            finished_modal: false,
        }
    }
}

impl AppState {
    #[verifier::type_invariant]
    spec fn inv(self) -> bool {
        self@.wf()
    }

    /// Sets a new countdown of `minutes` and `seconds` and stops the timer.
    /// A request for no time at all sets the shortest countdown, one second.
    pub fn apply_set_duration(&mut self, minutes: u32, seconds: u32)
        ensures
            final(self)@ == old(self)@.apply_duration(minutes as nat, seconds as nat),
            final(self)@.wf(),
            minutes == 0 && seconds == 0 ==> final(self)@.configured == NANOS_PER_SEC
                && final(self)@.remaining == NANOS_PER_SEC,
    {
        let asked: u64 = (minutes as u64) * 60 + (seconds as u64);
        let secs: u64 = if asked == 0 {
            1
        } else {
            asked
        };
        *self = AppState {
            configured_secs: secs,
            remaining: secs as u128 * NANOS_PER_SEC,
            running: false,
            last_tick: None,
            finished_modal: false,
        };
    }

    /// Sets a new countdown of `minutes` whole minutes and stops the timer.
    pub fn preset(&mut self, minutes: u32)
        ensures
            final(self)@ == old(self)@.apply_duration(minutes as nat, 0),
            final(self)@.wf(),
    {
        self.apply_set_duration(minutes, 0);
    }

    /// Starts the countdown from a fresh baseline.
    pub fn start(&mut self)
        ensures
            final(self)@ == old(self)@.start(),
            final(self)@.wf(),
    {
        proof {
            use_type_invariant(&*self);
        }
        self.running = true;
        self.last_tick = None;
    }

    /// Pauses the countdown.
    pub fn pause(&mut self)
        ensures
            final(self)@ == old(self)@.pause(),
            final(self)@.wf(),
    {
        proof {
            use_type_invariant(&*self);
        }
        self.running = false;
        self.last_tick = None;
    }

    /// Pauses a running countdown and starts a stopped one.
    pub fn toggle(&mut self)
        ensures
            final(self)@ == old(self)@.toggle(),
            final(self)@.wf(),
    {
        proof {
            use_type_invariant(&*self);
        }
        self.running = !self.running;
        self.last_tick = None;
    }

    /// Stops the countdown, winds it back to the configured length and
    /// drops a pending completion.
    pub fn reset(&mut self)
        ensures
            final(self)@ == old(self)@.reset(),
            final(self)@.wf(),
            final(self)@.remaining == final(self)@.configured,
            final(self)@.configured == old(self)@.configured,
            !final(self)@.completion_pending,
    {
        proof {
            use_type_invariant(&*self);
        }
        *self = AppState {
            configured_secs: self.configured_secs,
            remaining: self.configured_secs as u128 * NANOS_PER_SEC,
            running: false,
            last_tick: None,
            finished_modal: false,
        };
    }

    /// Acknowledges a pending completion.
    pub fn acknowledge_completion(&mut self)
        ensures
            final(self)@ == old(self)@.acknowledge(),
            final(self)@.wf(),
    {
        proof {
            use_type_invariant(&*self);
        }
        self.finished_modal = false;
    }

    /// Observes the clock at `now`, in nanoseconds since the caller's origin.
    ///
    /// This is the only operation that charges elapsed time. A `now` that
    /// lies before the baseline charges nothing. A stopped timer is left as
    /// it is, so a completion is reported once per countdown however often
    /// the clock is observed afterwards.
    pub fn tick(&mut self, now: u128)
        ensures
            final(self)@ == old(self)@.advance(now as nat),
            final(self)@.wf(),
            final(self)@.remaining <= old(self)@.remaining,
            !old(self)@.running ==> final(self)@.remaining == old(self)@.remaining
                && final(self)@.completion_pending == old(self)@.completion_pending
                && !final(self)@.running,
            old(self)@.elapsed(now as nat) == 0
                ==> final(self)@.remaining == old(self)@.remaining,
            final(self)@.completion_pending && !old(self)@.completion_pending
                <==> old(self)@.completes_at(now as nat) && !old(self)@.completion_pending,
    {
        proof {
            use_type_invariant(&*self);
        }
        if !self.running {
            self.last_tick = None;
            return;
        }
        let prev: u128 = match self.last_tick {
            Some(prev) => prev,
            None => {
                self.last_tick = Some(now);
                return;
            },
        };
        let dt: u128 = now.saturating_sub(prev);
        if dt >= self.remaining {
            *self = AppState {
                configured_secs: self.configured_secs,
                remaining: 0,
                running: false,
                last_tick: Some(now),
                finished_modal: true,
            };
        } else {
            self.remaining -= dt;
            self.last_tick = Some(now);
        }
    }

    /// Handles one frame's keyboard shortcuts: `space` toggles the
    /// countdown, then `reset` resets it, then `escape` acknowledges a
    /// pending completion.
    pub fn handle_keys(&mut self, space: bool, reset: bool, escape: bool)
        ensures
            final(self)@ == old(self)@.keys(space, reset, escape),
            final(self)@.wf(),
    {
        proof {
            use_type_invariant(&*self);
        }
        if space {
            self.toggle();
        }
        if reset {
            self.reset();
        }
        if escape {
            self.acknowledge_completion();
        }
    }

    /// Whether the display has to be drawn again within
    /// [`FRAME_INTERVAL_MILLIS`] without waiting for input.
    pub fn needs_repaint(&self) -> (due: bool)
        ensures
            due == self@.wants_frame(),
    {
        self.running || self.finished_modal
    }

    /// The configured countdown, in seconds.
    pub fn configured_secs(&self) -> (secs: u64)
        ensures
            secs as nat * NANOS_PER_SEC as nat == self@.configured,
            secs >= 1,
    {
        proof {
            use_type_invariant(self);
        }
        self.configured_secs
    }

    /// What is left of the countdown, in nanoseconds.
    pub fn remaining(&self) -> (nanos: u128)
        ensures
            nanos == self@.remaining,
            nanos <= self@.configured,
    {
        proof {
            use_type_invariant(self);
        }
        self.remaining
    }

    /// What is left of the countdown, in whole seconds, rounded down.
    pub fn remaining_secs(&self) -> (secs: u64)
        ensures
            secs == self@.remaining / (NANOS_PER_SEC as nat),
    {
        proof {
            use_type_invariant(self);
        }
        (self.remaining / NANOS_PER_SEC) as u64
    }

    /// What is left of the countdown as the minutes and seconds that would
    /// set it as a new countdown. The seconds are below sixty; the minutes
    /// are counted modulo 2^32, which no countdown of less than eight
    /// thousand years reaches.
    pub fn remaining_min_sec(&self) -> (setting: (u32, u32))
        ensures
            setting.0 == (self@.remaining / (NANOS_PER_SEC as nat) / 60) % 0x1_0000_0000,
            setting.1 == (self@.remaining / (NANOS_PER_SEC as nat)) % 60,
    {
        let total: u64 = self.remaining_secs();
        let minutes: u64 = (total / 60) % 0x1_0000_0000;
        let seconds: u64 = total % 60;
        (minutes as u32, seconds as u32)
    }

    /// Whether the countdown is running.
    pub fn running(&self) -> (running: bool)
        ensures
            running == self@.running,
    {
        self.running
    }

    /// Whether the countdown has completed and nobody has acknowledged it.
    pub fn completion_pending(&self) -> (pending: bool)
        ensures
            pending == self@.completion_pending,
            pending ==> self@.remaining == 0,
    {
        proof {
            use_type_invariant(self);
        }
        self.finished_modal
    }
}

} // verus!
