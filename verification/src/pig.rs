//! Pigs and the countdown that each one carries.

use bevy::time::{Timer, TimerMode};
use std::time::Duration;
use vstd::prelude::*;

verus! {

/// How long a pig grows before it is sold, in nanoseconds.
pub const PIG_LIFETIME_NANOS: u64 = 2_000_000_000;

/// Where a countdown of `duration` that stands at `elapsed` stands after
/// `delta` more has passed: it stops at its duration.
pub open spec fn elapsed_after(duration: nat, elapsed: nat, delta: nat) -> nat {
    if elapsed + delta >= duration {
        duration
    } else {
        elapsed + delta
    }
}

/// Whether a countdown of `duration` that stands at `elapsed` has run out
/// once `delta` more has passed.
pub open spec fn finished_after(duration: nat, elapsed: nat, delta: nat) -> bool {
    elapsed + delta >= duration
}

/// What a countdown reads: its length and the time it has gathered, both in
/// nanoseconds.
pub struct Reading {
    pub duration: nat,
    pub elapsed: nat,
}

impl Reading {
    /// The reading of a countdown of the given length that has not started.
    pub open spec fn fresh(duration: nat) -> Reading {
        Reading { duration, elapsed: 0 }
    }

    /// Whether the countdown has run out once `delta` more has passed.
    pub open spec fn finishes_within(self, delta: nat) -> bool {
        finished_after(self.duration, self.elapsed, delta)
    }

    /// The reading once `delta` more has passed.
    pub open spec fn after(self, delta: nat) -> Reading {
        Reading {
            duration: self.duration,
            elapsed: elapsed_after(self.duration, self.elapsed, delta),
        }
    }
}

/// Frames do not matter: letting `first` and then `second` pass leaves a
/// countdown where letting both pass at once would, and it runs out in one of
/// the two steps exactly when it would in the single one.
pub proof fn lemma_ticks_add_up(reading: Reading, first: nat, second: nat)
    ensures
        reading.after(first).after(second) == reading.after(first + second),
        (reading.finishes_within(first) || reading.after(first).finishes_within(second))
            == reading.finishes_within(first + second),
{
}

/// A countdown never reads more than its duration and never runs backwards;
/// it has run out exactly when a tick leaves it at its duration, and a tick of
/// its whole duration always does.
pub proof fn lemma_countdown_runs_out(reading: Reading, delta: nat)
    ensures
        reading.after(delta).elapsed <= reading.duration,
        reading.elapsed <= reading.duration ==> reading.elapsed <= reading.after(delta).elapsed,
        reading.finishes_within(delta) == (reading.after(delta).elapsed == reading.duration),
        delta >= reading.duration ==> reading.finishes_within(delta),
{
}

/// Advances a run-once engine timer and tells where it then stands.
///
/// Builds a `bevy::time::Timer` in `TimerMode::Once` with the given duration,
/// puts it at the given elapsed time with `Timer::set_elapsed`, and calls
/// `Timer::tick` with `delta_nanos`. Trusted, not proved: the timer then reads
/// the elapsed time clamped to its duration, and `Timer::finished` is true
/// exactly when the elapsed time reached the duration.
#[verifier::external_body]
fn tick_once_timer(duration_nanos: u64, elapsed_nanos: u64, delta_nanos: u64) -> (state: (u64, bool))
    ensures
        state.0 == elapsed_after(duration_nanos as nat, elapsed_nanos as nat, delta_nanos as nat),
        state.1 == finished_after(duration_nanos as nat, elapsed_nanos as nat, delta_nanos as nat),
{
    let mut timer = Timer::new(Duration::from_nanos(duration_nanos), TimerMode::Once);
    timer.set_elapsed(Duration::from_nanos(elapsed_nanos));
    timer.tick(Duration::from_nanos(delta_nanos));
    (timer.elapsed().as_nanos() as u64, timer.finished())
}

/// A countdown that runs once: it gathers elapsed time until it reaches its
/// duration and then stays there.
#[derive(Clone, Copy, Debug, PartialEq, Eq)]
pub struct Countdown {
    duration_nanos: u64,
    elapsed_nanos: u64,
}

impl View for Countdown {
    type V = Reading;

    closed spec fn view(&self) -> Reading {
        Reading { duration: self.duration_nanos as nat, elapsed: self.elapsed_nanos as nat }
    }
}

impl Countdown {
    /// The elapsed time never passes the duration.
    #[verifier::type_invariant]
    spec fn within_duration(self) -> bool {
        self.elapsed_nanos <= self.duration_nanos
    }

    /// Two countdowns that read the same are the same.
    pub proof fn lemma_reading_tells_countdowns_apart(self, other: Countdown)
        requires
            self@ == other@,
        ensures
            self == other,
    {
    }

    /// A countdown of the given length with nothing elapsed.
    pub fn new(duration_nanos: u64) -> (countdown: Countdown)
        ensures
            countdown@ == Reading::fresh(duration_nanos as nat),
    {
        Countdown { duration_nanos, elapsed_nanos: 0 }
    }

    /// Length of the countdown, in nanoseconds.
    pub fn duration_nanos(&self) -> (nanos: u64)
        ensures
            nanos == self@.duration,
    {
        self.duration_nanos
    }

    /// Time gathered so far, in nanoseconds. It never passes the duration.
    pub fn elapsed_nanos(&self) -> (nanos: u64)
        ensures
            nanos == self@.elapsed,
            nanos <= self@.duration,
    {
        proof {
            use_type_invariant(self);
        }
        self.elapsed_nanos
    }

    /// Whether a tick of `delta_nanos` would find the countdown run out.
    pub fn runs_out_within(&self, delta_nanos: u64) -> (finishes: bool)
        ensures
            finishes == self@.finishes_within(delta_nanos as nat),
    {
        proof {
            use_type_invariant(self);
        }
        delta_nanos >= self.duration_nanos - self.elapsed_nanos
    }

    /// Lets `delta_nanos` pass and says whether the countdown has run out.
    pub fn tick(&mut self, delta_nanos: u64) -> (finished: bool)
        ensures
            final(self)@ == old(self)@.after(delta_nanos as nat),
            finished == old(self)@.finishes_within(delta_nanos as nat),
    {
        let state = tick_once_timer(self.duration_nanos, self.elapsed_nanos, delta_nanos);
        self.elapsed_nanos = state.0;
        state.1
    }
}

/// A pig on the farm. It is sold when its lifetime has run out.
#[derive(Debug, PartialEq, Eq)]
pub struct Pig {
    pub lifetime: Countdown,
}

impl Pig {
    /// A pig that has just been bought.
    pub fn new() -> (pig: Pig)
        ensures
            pig.lifetime@ == Reading::fresh(PIG_LIFETIME_NANOS as nat),
    {
        Pig { lifetime: Countdown::new(PIG_LIFETIME_NANOS) }
    }
}

} // verus!
