//! The easing of one value: where it starts, where it ends, and the state
//! that says how far it has come.

use crate::chain::EasingChainComponent;
use crate::clock::{countdown_of, counts_once, duration_nanos};
use crate::clock::{timer_once, timer_reset, timer_set_duration, timer_tick};
use crate::clock::{timer_duration, timer_elapsed};
use crate::motion::{Frame, Motion, Reading};
use crate::policy::{EasingDirection, EasingState, EasingType, RepeatPolicy};
use bevy_time::Timer;
use std::time::Duration;
use vstd::prelude::*;

verus! {

/// Wrapper around a value that can be eased.
#[derive(Debug, Copy)]
pub struct EaseValue<T>(pub T);

impl<T: Clone> Clone for EaseValue<T> {
    fn clone(&self) -> (r: Self)
        ensures
            cloned(self.0, r.0),
    {
        EaseValue(self.0.clone())
    }
}

impl<T: Default> Default for EaseValue<T> {
    fn default() -> (r: Self)
        ensures
            T::default.ensures((), r.0),
    {
        EaseValue(T::default())
    }
}

/// What an easing is, seen from outside: its two ends, the method that
/// shapes the way between them, and its motion.
pub struct EasingView<T, M> {
    /// Value at the beginning of a run; absent until it is captured.
    pub start: Option<T>,
    /// Value at the end of a run.
    pub end: T,
    /// The easing method, kept for whoever computes the values.
    pub method: M,
    /// The state that the frames advance.
    pub motion: Motion,
}

impl<T, M> EasingView<T, M> {
    /// An easing as its constructors make it.
    pub open spec fn fresh(start: Option<T>, end: T, method: M, policy: RepeatPolicy) -> Self {
        EasingView { start, end, method, motion: Motion::fresh(policy) }
    }

    /// The same easing with another motion.
    pub open spec fn with_motion(self, motion: Motion) -> Self {
        EasingView { motion, ..self }
    }

    /// The easing as it leaves a chain: an absent start is taken from
    /// `live`, the value found on the entity.
    pub open spec fn seeded(self, live: T) -> Self {
        EasingView {
            start: Some(
                match self.start {
                    Some(v) => v,
                    None => live,
                },
            ),
            ..self
        }
    }
}

impl<T: Clone, M: Clone> EasingView<T, M> {
    /// `copy` is what cloning this easing may give: the same motion, with
    /// clones of the two ends and of the method.
    pub open spec fn cloned_to(self, copy: Self) -> bool {
        &&& copy.motion == self.motion
        &&& cloned(self.end, copy.end)
        &&& cloned(self.method, copy.method)
        &&& match self.start {
            Some(v) => copy.start is Some && cloned(v, copy.start->0),
            None => copy.start is None,
        }
    }
}

/// The easing of a value of type `T` by a method of type `M`.
pub struct EasingComponent<T, M> {
    start: Option<EaseValue<T>>,
    end: EaseValue<T>,
    ease_function: M,
    timer: Timer,
    state: EasingState,
    paused: bool,
    easing_type: EasingType,
    direction: EasingDirection,
}

/// The position of a run at the moment a value is to be written.
pub struct EasingProgress {
    /// The timer of the run as it stood then: its fraction is the position
    /// between the two ends.
    pub timer: Timer,
    /// Forward reads that fraction from the start value, backward from the
    /// end value.
    pub direction: EasingDirection,
}

impl View for EasingProgress {
    type V = Reading;

    open spec fn view(&self) -> Reading {
        Reading {
            elapsed: timer_elapsed(self.timer),
            duration: timer_duration(self.timer),
            direction: self.direction,
        }
    }
}

/// What a frame asks of the owner of an easing.
pub struct EasingStep {
    /// Write the value that lies at this position.
    pub progress: Option<EasingProgress>,
    /// Detach the easing from its entity.
    pub detach: bool,
}

impl View for EasingStep {
    type V = Frame;

    open spec fn view(&self) -> Frame {
        Frame {
            write: match self.progress {
                Some(p) => Some(p@),
                None => None,
            },
            detach: self.detach,
        }
    }
}

impl<T, M> View for EasingComponent<T, M> {
    type V = EasingView<T, M>;

    closed spec fn view(&self) -> EasingView<T, M> {
        EasingView {
            start: match self.start {
                Some(v) => Some(v.0),
                None => None,
            },
            end: self.end.0,
            method: self.ease_function,
            motion: Motion {
                timer: countdown_of(self.timer),
                state: self.state,
                waiting: self.paused,
                policy: self.easing_type@,
                direction: self.direction,
            },
        }
    }
}

impl<T, M> EasingComponent<T, M> {
    #[verifier::type_invariant]
    spec fn timer_counts(&self) -> bool {
        counts_once(self.timer)
    }

    /// A new easing from `start` to `end`. Without a start, the value found
    /// on the entity is captured when the easing is taken from a chain.
    pub fn new(start: Option<T>, end: T, ease_function: M, easing_type: EasingType) -> (r: Self)
        ensures
            r@ == EasingView::fresh(start, end, ease_function, easing_type@),
    {
        EasingComponent {
            start: match start {
                Some(v) => Some(EaseValue(v)),
                None => None,
            },
            end: EaseValue(end),
            ease_function,
            timer: timer_once(easing_type.duration()),
            state: EasingState::Play,
            paused: false,
            easing_type,
            direction: EasingDirection::Forward,
        }
    }

    /// The direction of the current run. A ping-pong easing starts forward
    /// and turns around after every run.
    pub fn direction(&self) -> (d: EasingDirection)
        ensures
            d == self@.motion.direction,
    {
        self.direction
    }

    /// Whether the easing is played.
    pub fn state(&self) -> (s: EasingState)
        ensures
            s == self@.motion.state,
    {
        self.state
    }

    /// Plays or suspends the easing. Nothing else changes.
    pub fn set_state(&mut self, state: EasingState)
        ensures
            final(self)@ == old(self)@.with_motion(old(self)@.motion.with_state(state)),
    {
        proof {
            use_type_invariant(&*self);
        }
        self.state = state;
    }

    /// Adds a delay before the easing starts.
    pub fn delay(self, duration: Duration) -> (r: Self)
        ensures
            r@ == self@.with_motion(self@.motion.delayed(duration_nanos(duration))),
    {
        let mut delayed = self;
        proof {
            use_type_invariant(&delayed);
        }
        delayed.paused = true;
        delayed.timer = timer_once(duration);
        delayed
    }

    /// The value at the beginning of a run, once it is known.
    pub fn start(&self) -> (v: Option<&T>)
        ensures
            match v {
                Some(v) => self@.start == Some(*v),
                None => self@.start is None,
            },
    {
        match &self.start {
            Some(v) => Some(&v.0),
            None => None,
        }
    }

    /// The value at the end of a run.
    pub fn end(&self) -> (v: &T)
        ensures
            *v == self@.end,
    {
        &self.end.0
    }

    /// The easing method.
    pub fn ease_function(&self) -> (m: &M)
        ensures
            *m == self@.method,
    {
        &self.ease_function
    }

    /// How the easing repeats.
    pub fn easing_type(&self) -> (t: EasingType)
        ensures
            t@ == self@.motion.policy,
    {
        self.easing_type
    }

    /// The starting value together with the easing, so that both can be put
    /// on an entity at once.
    pub fn with_original_value(self) -> (r: (T, Self))
        where T: Clone
        requires
            self@.start is Some,
        ensures
            cloned(self@.start->0, r.0),
            r.1 == self,
    {
        let value = match &self.start {
            Some(v) => v.0.clone(),
            None => vstd::pervasive::unreached(),
        };
        (value, self)
    }

    /// Starts a chain: `self` runs first, then a new easing from wherever
    /// `self` has left the value to `end`.
    pub fn ease_to(self, end: T, ease_function: M, easing_type: EasingType) -> (chain:
        EasingChainComponent<T, M>)
        ensures
            chain@ == seq![EasingView::fresh(None, end, ease_function, easing_type@), self@],
    {
        let next = EasingComponent::new(None, end, ease_function, easing_type);
        EasingChainComponent::pair(next, self)
    }

    /// Starts a chain as `ease_to` does, with an end value that `target_fn`
    /// computes from the end value of `self`.
    pub fn ease_to_fn<F: FnOnce(&T) -> T>(
        self,
        target_fn: F,
        ease_function: M,
        easing_type: EasingType,
    ) -> (chain: EasingChainComponent<T, M>)
        requires
            target_fn.requires((&self@.end,)),
        ensures
            chain@.len() == 2,
            target_fn.ensures((&self@.end,), chain@[0].end),
            chain@ == seq![
                EasingView::fresh(None, chain@[0].end, ease_function, easing_type@),
                self@,
            ],
    {
        let target = target_fn(&self.end.0);
        self.ease_to(target, ease_function, easing_type)
    }

    /// Gives the easing its start where it has none: the value is taken out
    /// of `live`, which is left at its default.
    pub fn capture_start(&mut self, live: &mut T)
        where T: Default
        ensures
            final(self)@ == old(self)@.seeded(*old(live)),
            match old(self)@.start {
                Some(_) => *final(live) == *old(live),
                None => T::default.ensures((), *final(live)),
            },
    {
        proof {
            use_type_invariant(&*self);
        }
        if self.start.is_none() {
            let mut taken = T::default();
            core::mem::swap(live, &mut taken);
            self.start = Some(EaseValue(taken));
        }
    }

    /// Advances the easing by one frame of length `delta` and says what the
    /// frame asks for.
    pub fn tick(&mut self, delta: Duration) -> (step: EasingStep)
        ensures
            final(self)@ == old(self)@.with_motion(old(self)@.motion.after(duration_nanos(delta))),
            step@ == old(self)@.motion.frame(duration_nanos(delta)),
    {
        proof {
            use_type_invariant(&*self);
        }
        if self.state == EasingState::Paused {
            return EasingStep { progress: None, detach: false };
        }
        timer_tick(&mut self.timer, delta);
        if self.paused {
            if self.timer.just_finished() {
                timer_set_duration(&mut self.timer, self.easing_type.duration());
                timer_reset(&mut self.timer);
                self.paused = false;
            }
            EasingStep { progress: None, detach: false }
        } else {
            let progress = if self.timer.duration().as_nanos() != 0 {
                Some(EasingProgress { timer: self.timer.clone(), direction: self.direction })
            } else {
                None
            };
            let mut detach = false;
            if self.timer.finished() {
                match self.easing_type {
                    EasingType::Once { .. } => {
                        detach = true;
                    },
                    EasingType::Loop { pause, .. } => {
                        if let Some(pause) = pause {
                            timer_set_duration(&mut self.timer, pause);
                            self.paused = true;
                        }
                        timer_reset(&mut self.timer);
                    },
                    EasingType::PingPong { pause, .. } => {
                        if let Some(pause) = pause {
                            timer_set_duration(&mut self.timer, pause);
                            self.paused = true;
                        }
                        timer_reset(&mut self.timer);
                        self.direction.reverse();
                    },
                }
            }
            EasingStep { progress, detach }
        }
    }
}

impl<T: Clone, M: Clone> Clone for EasingComponent<T, M> {
    fn clone(&self) -> (copy: Self)
        ensures
            self@.cloned_to(copy@),
    {
        proof {
            use_type_invariant(self);
        }
        EasingComponent {
            start: match &self.start {
                Some(v) => Some(EaseValue(v.0.clone())),
                None => None,
            },
            end: EaseValue(self.end.0.clone()),
            ease_function: self.ease_function.clone(),
            timer: self.timer.clone(),
            state: self.state,
            paused: self.paused,
            easing_type: self.easing_type,
            direction: self.direction,
        }
    }
}

} // verus!
