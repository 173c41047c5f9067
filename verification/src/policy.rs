//! How an easing repeats, whether it plays, and which way it moves.

use crate::clock::duration_nanos;
use std::time::Duration;
use vstd::prelude::*;

verus! {

/// How an easing repeats.
#[derive(Clone, Copy, Debug)]
pub enum EasingType {
    /// Runs once and is then removed.
    Once {
        /// Duration of the easing.
        duration: Duration,
    },
    /// Starts again from the start value every time it finishes.
    Loop {
        /// Duration of one run.
        duration: Duration,
        /// Time to wait between two runs.
        pause: Option<Duration>,
    },
    /// Runs back and forth between the start and the end value.
    PingPong {
        /// Duration of one run in one direction.
        duration: Duration,
        /// Time to wait before turning around.
        pause: Option<Duration>,
    },
}

/// An `EasingType` with its times in nanoseconds.
pub enum RepeatPolicy {
    /// Runs once.
    Once { duration: nat },
    /// Restarts from the start value.
    Loop { duration: nat, pause: Option<nat> },
    /// Runs back and forth.
    PingPong { duration: nat, pause: Option<nat> },
}

impl RepeatPolicy {
    /// Duration of one run.
    pub open spec fn duration(self) -> nat {
        match self {
            RepeatPolicy::Once { duration } => duration,
            RepeatPolicy::Loop { duration, .. } => duration,
            RepeatPolicy::PingPong { duration, .. } => duration,
        }
    }

    /// Wait between two runs, where one is configured.
    pub open spec fn pause(self) -> Option<nat> {
        match self {
            RepeatPolicy::Once { .. } => None,
            RepeatPolicy::Loop { pause, .. } => pause,
            RepeatPolicy::PingPong { pause, .. } => pause,
        }
    }
}

/// A pause in nanoseconds, where there is one.
pub open spec fn pause_nanos(pause: Option<Duration>) -> Option<nat> {
    match pause {
        Some(p) => Some(duration_nanos(p)),
        None => None,
    }
}

impl View for EasingType {
    type V = RepeatPolicy;

    open spec fn view(&self) -> RepeatPolicy {
        match *self {
            EasingType::Once { duration } => RepeatPolicy::Once {
                duration: duration_nanos(duration),
            },
            EasingType::Loop { duration, pause } => RepeatPolicy::Loop {
                duration: duration_nanos(duration),
                pause: pause_nanos(pause),
            },
            EasingType::PingPong { duration, pause } => RepeatPolicy::PingPong {
                duration: duration_nanos(duration),
                pause: pause_nanos(pause),
            },
        }
    }
}

impl EasingType {
    /// Duration of one run.
    pub fn duration(&self) -> (d: Duration)
        ensures
            duration_nanos(d) == self@.duration(),
    {
        match *self {
            EasingType::Once { duration } => duration,
            EasingType::Loop { duration, .. } => duration,
            EasingType::PingPong { duration, .. } => duration,
        }
    }

    /// Wait between two runs, where one is configured.
    pub fn pause(&self) -> (p: Option<Duration>)
        ensures
            pause_nanos(p) == self@.pause(),
    {
        match *self {
            EasingType::Once { .. } => None,
            EasingType::Loop { pause, .. } => pause,
            EasingType::PingPong { pause, .. } => pause,
        }
    }
}

/// Whether an easing is played.
#[derive(PartialEq, Eq, Structural, Debug, Clone, Copy)]
pub enum EasingState {
    /// The easing advances.
    Play,
    /// The easing is suspended.
    Paused,
}

impl EasingState {
    /// The other state.
    pub open spec fn toggled(self) -> EasingState {
        match self {
            EasingState::Paused => EasingState::Play,
            EasingState::Play => EasingState::Paused,
        }
    }
}

impl vstd::std_specs::ops::NotSpecImpl for EasingState {
    open spec fn obeys_not_spec() -> bool {
        true
    }

    open spec fn not_req(self) -> bool {
        true
    }

    open spec fn not_spec(self) -> EasingState {
        self.toggled()
    }
}

impl core::ops::Not for EasingState {
    type Output = EasingState;

    /// `!state` is the other state.
    fn not(self) -> (r: EasingState) {
        match self {
            EasingState::Paused => EasingState::Play,
            EasingState::Play => EasingState::Paused,
        }
    }
}

/// Direction in which an easing moves. Only a ping-pong easing ever moves
/// backward.
#[derive(PartialEq, Eq, Structural, Clone, Copy, Debug)]
pub enum EasingDirection {
    /// From the start value towards the end value.
    Forward,
    /// From the end value back towards the start value.
    Backward,
}

impl EasingDirection {
    /// The opposite direction.
    pub open spec fn reversed(self) -> EasingDirection {
        match self {
            EasingDirection::Forward => EasingDirection::Backward,
            EasingDirection::Backward => EasingDirection::Forward,
        }
    }

    /// Turns the direction around.
    pub fn reverse(&mut self)
        ensures
            *final(self) == old(self).reversed(),
        no_unwind
    {
        *self = match *self {
            EasingDirection::Backward => EasingDirection::Forward,
            EasingDirection::Forward => EasingDirection::Backward,
        };
    }
}

} // verus!
