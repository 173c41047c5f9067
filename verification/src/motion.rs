//! The life of one easing as a state machine over plain values.
//!
//! A `Motion` is everything about an easing that decides what happens on a
//! frame: its countdown, whether it plays, whether it waits between two
//! runs, how it repeats and which way it moves. `Motion::step` is the
//! transition for one frame; the executable code is verified against it.

use crate::clock::Countdown;
use crate::policy::{EasingDirection, EasingState, RepeatPolicy};
use vstd::prelude::*;

verus! {

/// How far a run has come when a value is to be written: the position
/// `elapsed / duration` between the two ends, and the direction in which it
/// is to be read.
pub struct Reading {
    /// Time counted in this run, in nanoseconds.
    pub elapsed: nat,
    /// Length of the run, in nanoseconds.
    pub duration: nat,
    /// Forward reads the position from the start value, backward from the
    /// end value.
    pub direction: EasingDirection,
}

/// What one frame asks of the owner of an easing.
pub struct Frame {
    /// Write the value that lies at this reading.
    pub write: Option<Reading>,
    /// Detach the easing: it has run for the last time.
    pub detach: bool,
}

impl Frame {
    /// A frame on which nothing is to be done.
    pub open spec fn idle() -> Frame {
        Frame { write: None, detach: false }
    }
}

/// The state of one easing.
pub struct Motion {
    /// The countdown of the current run, or of the current wait.
    pub timer: Countdown,
    /// Whether the easing is played.
    pub state: EasingState,
    /// The countdown measures a wait, not a run.
    pub waiting: bool,
    /// How the easing repeats.
    pub policy: RepeatPolicy,
    /// The direction of the current run.
    pub direction: EasingDirection,
}

impl Motion {
    /// An easing that has just been created: it plays, moves forward and is
    /// at the beginning of its first run.
    pub open spec fn fresh(policy: RepeatPolicy) -> Motion {
        Motion {
            timer: Countdown::fresh(policy.duration()),
            state: EasingState::Play,
            waiting: false,
            policy,
            direction: EasingDirection::Forward,
        }
    }

    /// The easing made to wait for `delay` before its next run.
    pub open spec fn delayed(self, delay: nat) -> Motion {
        Motion { timer: Countdown::fresh(delay), waiting: true, ..self }
    }

    /// The easing with another play state.
    pub open spec fn with_state(self, state: EasingState) -> Motion {
        Motion { state, ..self }
    }

    /// The countdown with which the easing goes on after a run has finished:
    /// that of the configured pause, or that of the next run at once.
    pub open spec fn restarted(self, finished: Countdown) -> Countdown {
        match self.policy.pause() {
            Some(pause) => finished.with_duration(pause).reset(),
            None => finished.reset(),
        }
    }

    /// What the frame asks for when a run has counted up to `timer`: a
    /// write, unless the run has no length.
    pub open spec fn reading(self, timer: Countdown) -> Option<Reading> {
        if timer.duration != 0 {
            Some(Reading { elapsed: timer.elapsed, duration: timer.duration, direction: self.direction })
        } else {
            None
        }
    }

    /// The easing after a frame of `delta` nanoseconds.
    ///
    /// A suspended easing does not move. Otherwise the countdown advances.
    /// While waiting, the end of the wait starts the next run. While
    /// running, the end of the run leaves a one-time easing finished, and
    /// sends a repeating one into its pause or its next run; a ping-pong
    /// easing also turns around.
    pub open spec fn after(self, delta: nat) -> Motion {
        let timer = self.timer.tick(delta);
        if self.state == EasingState::Paused {
            self
        } else if self.waiting {
            if timer.just_finished {
                Motion {
                    timer: timer.with_duration(self.policy.duration()).reset(),
                    waiting: false,
                    ..self
                }
            } else {
                Motion { timer, ..self }
            }
        } else if timer.finished {
            match self.policy {
                RepeatPolicy::Once { .. } => Motion { timer, ..self },
                RepeatPolicy::Loop { pause, .. } => Motion {
                    timer: self.restarted(timer),
                    waiting: pause.is_some(),
                    ..self
                },
                RepeatPolicy::PingPong { pause, .. } => Motion {
                    timer: self.restarted(timer),
                    waiting: pause.is_some(),
                    direction: self.direction.reversed(),
                    ..self
                },
            }
        } else {
            Motion { timer, ..self }
        }
    }

    /// What a frame of `delta` nanoseconds asks for.
    ///
    /// Nothing while the easing is suspended or waiting. While running, a
    /// write at the position that the countdown has reached, and the
    /// detachment of a one-time easing whose countdown is finished.
    pub open spec fn frame(self, delta: nat) -> Frame {
        let timer = self.timer.tick(delta);
        if self.state == EasingState::Paused || self.waiting {
            Frame::idle()
        } else {
            Frame {
                write: self.reading(timer),
                detach: timer.finished && self.policy is Once,
            }
        }
    }
}

} // verus!
