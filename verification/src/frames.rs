//! An easing over many frames: when a one-time easing is detached, how a
//! repeating easing gets through a cycle, and what suspending it changes.

use crate::clock::Countdown;
use crate::motion::{Frame, Motion};
use crate::policy::{EasingDirection, EasingState};
use vstd::prelude::*;

verus! {

/// The time that the frames `deltas` take together.
pub open spec fn total(deltas: Seq<nat>) -> nat
    decreases deltas.len(),
{
    if deltas.len() == 0 {
        0
    } else {
        total(deltas.drop_last()) + deltas.last()
    }
}

/// The frames `deltas` bring a countdown that stands at `elapsed` up to
/// `duration` on their last frame, and on none before.
pub open spec fn completes(elapsed: nat, duration: nat, deltas: Seq<nat>) -> bool {
    &&& deltas.len() > 0
    &&& deltas.len() > 1 ==> elapsed + total(deltas.drop_last()) < duration
    &&& elapsed + total(deltas) >= duration
}

impl Motion {
    /// The easing after the frames `deltas`, in order.
    pub open spec fn run(self, deltas: Seq<nat>) -> Motion
        decreases deltas.len(),
    {
        if deltas.len() == 0 {
            self
        } else {
            self.run(deltas.drop_last()).after(deltas.last())
        }
    }

    /// The easing is played and in the middle of a run.
    pub open spec fn running(self) -> bool {
        &&& self.state == EasingState::Play
        &&& !self.waiting
        &&& !self.timer.finished
        &&& self.timer.duration == self.policy.duration()
    }

    /// The easing with `time` more on its countdown and nothing else
    /// changed.
    pub open spec fn advanced(self, time: nat) -> Motion {
        Motion {
            timer: Countdown {
                elapsed: self.timer.elapsed + time,
                just_finished: false,
                ..self.timer
            },
            ..self
        }
    }

    /// The easing at the beginning of a run in the direction `direction`.
    pub open spec fn at_start(self, direction: EasingDirection) -> Motion {
        Motion {
            timer: Countdown::fresh(self.policy.duration()),
            waiting: false,
            direction,
            ..self
        }
    }

    /// The easing after its play state has been toggled `times` times.
    pub open spec fn toggled(self, times: nat) -> Motion
        decreases times,
    {
        if times == 0 {
            self
        } else {
            let before = self.toggled((times - 1) as nat);
            before.with_state(before.state.toggled())
        }
    }
}

/// Adding a frame adds its time.
pub proof fn lemma_total_push(deltas: Seq<nat>, delta: nat)
    ensures
        total(deltas.push(delta)) == total(deltas) + delta,
{
    assert(deltas.push(delta).drop_last() == deltas);
}

/// Running two rows of frames one after the other is running them as one.
pub proof fn lemma_run_concat(m: Motion, first: Seq<nat>, second: Seq<nat>)
    ensures
        m.run(first + second) == m.run(first).run(second),
    decreases second.len(),
{
    if second.len() == 0 {
        assert(first + second == first);
    } else {
        assert((first + second).drop_last() == first + second.drop_last());
        lemma_run_concat(m, first, second.drop_last());
    }
}

/// While the countdown of a played easing stays below its duration, its
/// frames do nothing but count.
pub proof fn lemma_counting(m: Motion, deltas: Seq<nat>)
    requires
        m.state == EasingState::Play,
        !m.timer.finished,
        deltas.len() > 0,
        m.timer.elapsed + total(deltas) < m.timer.duration,
    ensures
        m.run(deltas) == m.advanced(total(deltas)),
    decreases deltas.len(),
{
    let before = deltas.drop_last();
    if before.len() > 0 {
        lemma_counting(m, before);
    } else {
        assert(m.run(before) == m);
        assert(total(before) == 0);
    }
}

/// The easing as it stands before the last of the frames that complete its
/// countdown.
proof fn lemma_before_last(m: Motion, deltas: Seq<nat>)
    requires
        m.state == EasingState::Play,
        !m.timer.finished,
        completes(m.timer.elapsed, m.timer.duration, deltas),
    ensures
        m.run(deltas) == m.run(deltas.drop_last()).after(deltas.last()),
        m.run(deltas.drop_last()).timer.tick(deltas.last()) == (Countdown {
            elapsed: m.timer.duration,
            finished: true,
            just_finished: true,
            ..m.timer
        }),
        m.run(deltas.drop_last()) == (Motion { timer: m.run(deltas.drop_last()).timer, ..m }),
{
    let before = deltas.drop_last();
    if before.len() > 0 {
        lemma_counting(m, before);
    } else {
        assert(m.run(before) == m);
        assert(total(before) == 0);
    }
}

/// A one-time easing is detached on the frame on which the time of its
/// frames reaches its duration, and on no frame before.
///
/// `deltas` are the frames of a played easing that is in a run, and frame
/// `k` is one before which the duration has not been reached. That frame
/// detaches the easing exactly if the time of the frames up to and with it
/// reaches the duration.
pub proof fn theorem_once_detaches_when_due(m: Motion, deltas: Seq<nat>, k: int)
    requires
        (m.policy is Once),
        m.running(),
        0 <= k < deltas.len(),
        k > 0 ==> m.timer.elapsed + total(deltas.take(k)) < m.policy.duration(),
    ensures
        m.run(deltas.take(k)).frame(deltas[k]).detach == (m.timer.elapsed + total(
            deltas.take(k + 1),
        ) >= m.policy.duration()),
        (m.run(deltas.take(k)).frame(deltas[k]).write is Some) == (m.policy.duration() > 0),
{
    assert(deltas.take(k + 1) == deltas.take(k).push(deltas[k]));
    lemma_total_push(deltas.take(k), deltas[k]);
    if k > 0 {
        lemma_counting(m, deltas.take(k));
    }
}

/// A repeating easing that has completed a run and, where it has a pause,
/// waited through it, stands at the beginning of its next run. A ping-pong
/// easing then moves in the other direction, a looping one in the same.
///
/// `run` are the frames that complete the run, `rest` those that complete
/// the pause.
pub proof fn lemma_cycle(m: Motion, run: Seq<nat>, rest: Seq<nat>)
    requires
        !(m.policy is Once),
        m.running(),
        completes(m.timer.elapsed, m.policy.duration(), run),
        match m.policy.pause() {
            Some(pause) => completes(0, pause, rest),
            None => rest.len() == 0,
        },
    ensures
        m.run(run + rest) == m.at_start(
            if m.policy is PingPong {
                m.direction.reversed()
            } else {
                m.direction
            },
        ),
{
    lemma_run_concat(m, run, rest);
    lemma_before_last(m, run);
    let paused = m.run(run);
    match m.policy.pause() {
        Some(pause) => {
            assert(paused.timer == Countdown::fresh(pause));
            lemma_before_last(paused, rest);
        },
        None => {},
    }
}

/// One full cycle of a ping-pong easing, its run and then its pause,
/// reverses its direction and changes nothing else: the easing stands at the
/// beginning of a run.
pub proof fn theorem_ping_pong_cycle_reverses(m: Motion, run: Seq<nat>, rest: Seq<nat>)
    requires
        (m.policy is PingPong),
        m.running(),
        completes(m.timer.elapsed, m.policy.duration(), run),
        match m.policy.pause() {
            Some(pause) => completes(0, pause, rest),
            None => rest.len() == 0,
        },
    ensures
        m.run(run + rest) == m.at_start(m.direction.reversed()),
        m.run(run + rest).direction == m.direction.reversed(),
        m.run(run + rest).running(),
{
    lemma_cycle(m, run, rest);
}

/// Two full cycles of a ping-pong easing bring it back to the direction in
/// which it set out.
pub proof fn theorem_ping_pong_two_cycles_return(
    m: Motion,
    run: Seq<nat>,
    rest: Seq<nat>,
    back: Seq<nat>,
    back_rest: Seq<nat>,
)
    requires
        (m.policy is PingPong),
        m.running(),
        completes(m.timer.elapsed, m.policy.duration(), run),
        completes(0, m.policy.duration(), back),
        match m.policy.pause() {
            Some(pause) => completes(0, pause, rest) && completes(0, pause, back_rest),
            None => rest.len() == 0 && back_rest.len() == 0,
        },
    ensures
        m.run(run + rest + back + back_rest) == m.at_start(m.direction),
        m.run(run + rest + back + back_rest).direction == m.direction,
{
    lemma_cycle(m, run, rest);
    let turned = m.run(run + rest);
    lemma_cycle(turned, back, back_rest);
    lemma_run_concat(m, run + rest, back + back_rest);
    assert(run + rest + back + back_rest == (run + rest) + (back + back_rest));
}

/// A looping easing keeps its direction through a full cycle.
pub proof fn theorem_loop_cycle_keeps_direction(m: Motion, run: Seq<nat>, rest: Seq<nat>)
    requires
        (m.policy is Loop),
        m.running(),
        completes(m.timer.elapsed, m.policy.duration(), run),
        match m.policy.pause() {
            Some(pause) => completes(0, pause, rest),
            None => rest.len() == 0,
        },
    ensures
        m.run(run + rest) == m.at_start(m.direction),
{
    lemma_cycle(m, run, rest);
}

/// A suspended easing does not move, however long the frame, and asks for
/// nothing.
pub proof fn theorem_suspended_stands_still(m: Motion, delta: nat)
    requires
        m.state == EasingState::Paused,
    ensures
        m.after(delta) == m,
        m.frame(delta) == Frame::idle(),
{
}

/// Toggling the play state an even number of times leaves the easing as it
/// was, its countdown included.
pub proof fn theorem_even_toggles_change_nothing(m: Motion, pairs: nat)
    ensures
        m.toggled(2 * pairs) == m,
    decreases pairs,
{
    if pairs > 0 {
        theorem_even_toggles_change_nothing(m, (pairs - 1) as nat);
        let twice = (2 * pairs) as nat;
        assert(m.toggled(twice) == m.toggled((twice - 1) as nat).with_state(
            m.toggled((twice - 1) as nat).state.toggled(),
        ));
        assert((twice - 1) as nat > 0);
        assert(((twice - 1) as nat - 1) as nat == 2 * (pairs - 1) as nat);
    }
}

/// Every value that a frame asks to be written lies between the two ends:
/// the run has a length and has not counted beyond it. On the frame that
/// completes a run the position is the full length of the run.
pub proof fn theorem_readings_lie_within_the_run(m: Motion, delta: nat)
    requires
        m.timer.elapsed <= m.timer.duration,
        m.timer.finished ==> m.timer.elapsed == m.timer.duration,
    ensures
        m.frame(delta).write matches Some(reading) ==> {
            &&& 0 < reading.duration
            &&& reading.elapsed <= reading.duration
            &&& reading.direction == m.direction
            &&& m.timer.tick(delta).finished ==> reading.elapsed == reading.duration
        },
{
}

} // verus!
