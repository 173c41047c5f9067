//! Time as the easing logic sees it: `std::time::Duration` measured in
//! nanoseconds and `bevy_time::Timer` used as a one-shot countdown.
//!
//! Nothing in this module is proved. Each item states what the named outside
//! function does; everything else in the crate is verified against these
//! statements.

use std::time::Duration;
use vstd::prelude::*;

verus! {

#[verifier::external_type_specification]
#[verifier::external_body]
pub struct ExTimer(bevy_time::Timer);

/// The length of a duration in whole nanoseconds: what `Duration::as_nanos`
/// returns for it.
pub uninterp spec fn duration_nanos(d: Duration) -> nat;

/// The time a timer has counted, in nanoseconds: what `Timer::elapsed`
/// returns for it.
pub uninterp spec fn timer_elapsed(t: bevy_time::Timer) -> nat;

/// The time a timer counts up to, in nanoseconds: what `Timer::duration`
/// returns for it.
pub uninterp spec fn timer_duration(t: bevy_time::Timer) -> nat;

/// Whether a timer has reached its duration: what `Timer::finished` returns
/// for it.
pub uninterp spec fn timer_finished(t: bevy_time::Timer) -> bool;

/// Whether a timer reached its duration on its latest tick: what
/// `Timer::just_finished` returns for it.
pub uninterp spec fn timer_just_finished(t: bevy_time::Timer) -> bool;

/// Whether a timer is paused: what `Timer::paused` returns for it.
pub uninterp spec fn timer_paused(t: bevy_time::Timer) -> bool;

/// Whether a timer restarts by itself when it finishes: whether
/// `Timer::mode` returns `TimerMode::Repeating` for it.
pub uninterp spec fn timer_repeating(t: bevy_time::Timer) -> bool;

/// What a one-shot timer holds, with times in nanoseconds.
pub struct Countdown {
    /// Time counted so far.
    pub elapsed: nat,
    /// Time at which the countdown is finished.
    pub duration: nat,
    /// The countdown has reached its duration.
    pub finished: bool,
    /// The countdown reached its duration on the latest tick.
    pub just_finished: bool,
}

impl Countdown {
    /// A countdown of `duration` that has not started.
    pub open spec fn fresh(duration: nat) -> Countdown {
        Countdown { elapsed: 0, duration, finished: false, just_finished: false }
    }

    /// The countdown after `delta` more nanoseconds. A finished countdown
    /// stays where it is; otherwise time is added and the countdown stops at
    /// its duration as soon as that is reached.
    pub open spec fn tick(self, delta: nat) -> Countdown {
        if self.finished {
            Countdown { just_finished: false, ..self }
        } else if self.elapsed + delta >= self.duration {
            Countdown { elapsed: self.duration, finished: true, just_finished: true, ..self }
        } else {
            Countdown { elapsed: self.elapsed + delta, finished: false, just_finished: false, ..self }
        }
    }

    /// The countdown started again from zero, with the same duration.
    pub open spec fn reset(self) -> Countdown {
        Countdown::fresh(self.duration)
    }

    /// The countdown with another duration and nothing else changed.
    pub open spec fn with_duration(self, duration: nat) -> Countdown {
        Countdown { duration, ..self }
    }
}

/// The countdown that a timer holds.
pub open spec fn countdown_of(t: bevy_time::Timer) -> Countdown {
    Countdown {
        elapsed: timer_elapsed(t),
        duration: timer_duration(t),
        finished: timer_finished(t),
        just_finished: timer_just_finished(t),
    }
}

/// The timer counts: it is not paused and does not repeat.
pub open spec fn counts_once(t: bevy_time::Timer) -> bool {
    !timer_paused(t) && !timer_repeating(t)
}

/// `Duration::as_nanos`: the whole duration in nanoseconds.
pub assume_specification[ Duration::as_nanos ](d: &Duration) -> (n: u128)
    ensures
        n == duration_nanos(*d),
;

/// `Timer::new` with `TimerMode::Once`: a timer of the given duration that
/// has counted nothing, is not finished, is not paused and does not repeat.
#[verifier::external_body]
pub(crate) fn timer_once(duration: Duration) -> (t: bevy_time::Timer)
    ensures
        timer_elapsed(t) == 0,
        timer_duration(t) == duration_nanos(duration),
        !timer_finished(t),
        !timer_just_finished(t),
        !timer_paused(t),
        !timer_repeating(t),
{
    bevy_time::Timer::new(duration, bevy_time::TimerMode::Once)
}

/// `Timer::tick` on a timer that is neither paused nor repeating. A finished
/// timer only forgets that it had just finished. Otherwise `delta` is added
/// to the elapsed time; the timer is finished as soon as that sum reaches
/// the duration, and the elapsed time is then set to the duration. The sum
/// saturates at the largest `Duration`, which no duration exceeds, so the
/// comparison is that of the exact sum.
#[verifier::external_body]
pub(crate) fn timer_tick(t: &mut bevy_time::Timer, delta: Duration)
    requires
        counts_once(*old(t)),
    ensures
        countdown_of(*final(t)) == countdown_of(*old(t)).tick(duration_nanos(delta)),
        counts_once(*final(t)),
    no_unwind
{
    t.tick(delta);
}

/// `Timer::finished`: the stored flag.
pub assume_specification[ bevy_time::Timer::finished ](t: &bevy_time::Timer) -> (r: bool)
    ensures
        r == timer_finished(*t),
;

/// `Timer::just_finished`: whether the latest tick finished the timer.
pub assume_specification[ bevy_time::Timer::just_finished ](t: &bevy_time::Timer) -> (r: bool)
    ensures
        r == timer_just_finished(*t),
;

/// `Timer::duration`: the stored duration.
pub assume_specification[ bevy_time::Timer::duration ](t: &bevy_time::Timer) -> (r: Duration)
    ensures
        duration_nanos(r) == timer_duration(*t),
;

/// `Timer::set_duration`: stores the duration and touches nothing else.
#[verifier::external_body]
pub(crate) fn timer_set_duration(t: &mut bevy_time::Timer, duration: Duration)
    ensures
        countdown_of(*final(t)) == countdown_of(*old(t)).with_duration(duration_nanos(duration)),
        timer_paused(*final(t)) == timer_paused(*old(t)),
        timer_repeating(*final(t)) == timer_repeating(*old(t)),
    no_unwind
{
    t.set_duration(duration);
}

/// `Timer::reset`: the elapsed time goes back to zero and both finished
/// flags are cleared; duration, mode and pause are kept.
#[verifier::external_body]
pub(crate) fn timer_reset(t: &mut bevy_time::Timer)
    ensures
        countdown_of(*final(t)) == countdown_of(*old(t)).reset(),
        timer_paused(*final(t)) == timer_paused(*old(t)),
        timer_repeating(*final(t)) == timer_repeating(*old(t)),
    no_unwind
{
    t.reset();
}

/// `Clone` for `Timer`, which is derived: the copy holds what the timer
/// holds.
pub assume_specification[ <bevy_time::Timer as Clone>::clone ](t: &bevy_time::Timer) -> (r:
    bevy_time::Timer)
    ensures
        r == *t,
;

} // verus!
