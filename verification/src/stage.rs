//! What is attached to one entity over the frames: at most one easing that
//! runs, and the chain from which the next one comes.

use crate::component::EasingView;
use crate::motion::Motion;
use crate::policy::{EasingState, RepeatPolicy};
use vstd::prelude::*;

verus! {

/// The easing and the chain of one entity, as far as the frames decide on
/// them.
pub struct Stage {
    /// The easing that runs.
    pub easing: Option<Motion>,
    /// The chain; its last link runs next.
    pub chain: Option<Seq<Motion>>,
}

/// The motions of the links of a chain.
pub open spec fn motions<T, M>(links: Seq<EasingView<T, M>>) -> Seq<Motion> {
    Seq::new(links.len(), |i: int| links[i].motion)
}

/// The frames that a chain still takes at most, when every frame takes
/// time: for each link the frame that takes it from the chain and the frames
/// of its own.
pub open spec fn chain_frames(links: Seq<Motion>) -> nat
    decreases links.len(),
{
    if links.len() == 0 {
        0
    } else {
        chain_frames(links.drop_last()) + 1 + links.last().frames_left()
    }
}

impl Motion {
    /// The easing comes to an end by itself: it is played, runs once, and
    /// does not wait on a countdown that has already finished.
    pub open spec fn ends(self) -> bool {
        &&& self.policy is Once
        &&& self.state == EasingState::Play
        &&& self.waiting ==> !self.timer.finished
    }

    /// Time that the countdown has yet to count.
    pub open spec fn time_left(self) -> nat {
        if self.timer.elapsed < self.timer.duration {
            (self.timer.duration - self.timer.elapsed) as nat
        } else {
            0
        }
    }

    /// The frames after which an easing that ends is detached at the
    /// latest, when every frame takes time.
    pub open spec fn frames_left(self) -> nat {
        if self.waiting {
            self.time_left() + 1 + self.policy.duration() + 1
        } else if self.timer.finished {
            1
        } else {
            self.time_left() + 1
        }
    }
}

impl Stage {
    /// The stage of an entity with the easing and the chain given.
    pub open spec fn of<T, M>(
        easing: Option<EasingView<T, M>>,
        chain: Option<Seq<EasingView<T, M>>>,
    ) -> Stage {
        Stage {
            easing: match easing {
                Some(easing) => Some(easing.motion),
                None => None,
            },
            chain: match chain {
                Some(links) => Some(motions(links)),
                None => None,
            },
        }
    }

    /// An entity on which a chain has just been put.
    pub open spec fn queued(links: Seq<Motion>) -> Stage {
        Stage { easing: None, chain: Some(links) }
    }

    /// Nothing is attached any more.
    pub open spec fn settled(self) -> bool {
        self.easing is None && self.chain is None
    }

    /// The link that the next frame takes from the chain and attaches.
    pub open spec fn begins(self) -> Option<Motion> {
        match self.chain {
            Some(links) => if self.easing is None && links.len() > 0 {
                Some(links.last())
            } else {
                None
            },
            None => None,
        }
    }

    /// The stage after a frame of `delta` nanoseconds.
    ///
    /// An easing is advanced, and detached when the frame says so. Without
    /// an easing, the last link of the chain becomes the easing, and a chain
    /// in which nothing is left is detached.
    pub open spec fn after(self, delta: nat) -> Stage {
        match self.easing {
            Some(m) => Stage {
                easing: if m.frame(delta).detach {
                    None
                } else {
                    Some(m.after(delta))
                },
                ..self
            },
            None => match self.chain {
                Some(links) => if links.len() == 0 {
                    Stage { easing: None, chain: None }
                } else {
                    Stage {
                        easing: Some(links.last()),
                        chain: if links.len() == 1 {
                            None
                        } else {
                            Some(links.drop_last())
                        },
                    }
                },
                None => self,
            },
        }
    }

    /// The stage after the frames `deltas`, in order.
    pub open spec fn run(self, deltas: Seq<nat>) -> Stage
        decreases deltas.len(),
    {
        if deltas.len() == 0 {
            self
        } else {
            self.run(deltas.drop_last()).after(deltas.last())
        }
    }

    /// The links that the frames `deltas` have taken from the chain and
    /// attached, in the order in which that happened.
    pub open spec fn begun(self, deltas: Seq<nat>) -> Seq<Motion>
        decreases deltas.len(),
    {
        if deltas.len() == 0 {
            Seq::empty()
        } else {
            let before = self.begun(deltas.drop_last());
            match self.run(deltas.drop_last()).begins() {
                Some(link) => before.push(link),
                None => before,
            }
        }
    }

    /// Everything attached comes to an end by itself.
    pub open spec fn ends(self) -> bool {
        &&& self.easing matches Some(m) ==> m.ends()
        &&& self.chain matches Some(links) ==> forall|i: int|
            0 <= i < links.len() ==> (#[trigger] links[i]).ends()
    }

    /// The frames after which the stage is settled at the latest, when
    /// everything on it ends and every frame takes time.
    pub open spec fn frames_left(self) -> nat {
        (match self.easing {
            Some(m) => m.frames_left(),
            None => 0,
        }) + (match self.chain {
            Some(links) => if links.len() == 0 {
                1
            } else {
                chain_frames(links)
            },
            None => 0,
        })
    }
}

/// A new easing that runs once comes to an end by itself, and so does one
/// that has been given a delay.
pub proof fn theorem_new_once_easing_ends(policy: RepeatPolicy, delay: nat)
    requires
        (policy is Once),
    ensures
        Motion::fresh(policy).ends(),
        Motion::fresh(policy).delayed(delay).ends(),
        Motion::fresh(policy).frames_left() == policy.duration() + 1,
{
}

/// A settled stage stays settled.
pub proof fn theorem_settled_stays_settled(stage: Stage, delta: nat)
    requires
        stage.settled(),
    ensures
        stage.after(delta) == stage,
{
}

/// A chain is run link by link, the last one stored first, and is detached
/// with the frame that takes its last link.
///
/// After any frames, the links begun so far are the last ones of the chain
/// in reverse, the others are still in the chain, and at most one easing
/// runs: the link begun last. Once nothing is attached any more, every link
/// has been begun.
pub proof fn theorem_chain_runs_in_order(links: Seq<Motion>, deltas: Seq<nat>)
    requires
        links.len() > 0,
    ensures
        ({
            let stage = Stage::queued(links).run(deltas);
            let begun = Stage::queued(links).begun(deltas);
            &&& begun.len() <= links.len()
            &&& forall|i: int| 0 <= i < begun.len() ==> begun[i] == links[links.len() - 1 - i]
            &&& stage.chain == if begun.len() < links.len() {
                Some(links.take(links.len() - begun.len()))
            } else {
                None
            }
            &&& begun.len() == 0 ==> stage.easing is None
            &&& stage.settled() ==> begun.len() == links.len()
        }),
    decreases deltas.len(),
{
    let start = Stage::queued(links);
    if deltas.len() == 0 {
        assert(links.take(links.len() as int) == links);
    } else {
        let head = deltas.drop_last();
        theorem_chain_runs_in_order(links, head);
        let stage = start.run(head);
        let begun = start.begun(head);
        if stage.easing is None && begun.len() < links.len() {
            let left = links.take(links.len() - begun.len());
            assert(left.last() == links[links.len() - 1 - begun.len()]);
            if left.len() > 1 {
                assert(left.drop_last() == links.take(links.len() - begun.len() - 1));
            }
        }
    }
}

/// A frame that takes time brings a stage on which everything ends nearer
/// to being settled.
pub proof fn lemma_frame_counts(stage: Stage, delta: nat)
    requires
        stage.ends(),
        !stage.settled(),
        delta > 0,
    ensures
        stage.after(delta).ends(),
        stage.after(delta).frames_left() < stage.frames_left(),
{
    match stage.easing {
        Some(m) => {},
        None => {
            let links = stage.chain->0;
            if links.len() > 0 {
                assert(links.last().ends());
                let rest = links.drop_last();
                assert forall|i: int| 0 <= i < rest.len() implies (#[trigger] rest[i]).ends() by {
                    assert(rest[i] == links[i]);
                }
                if links.len() == 1 {
                    assert(chain_frames(rest) == 0);
                }
            }
        },
    }
}

/// The frames still needed never grow, and shrink by one with every frame
/// that takes time until the stage is settled.
proof fn lemma_run_counts(stage: Stage, deltas: Seq<nat>)
    requires
        stage.ends(),
        forall|i: int| 0 <= i < deltas.len() ==> #[trigger] deltas[i] > 0,
    ensures
        stage.run(deltas).ends(),
        stage.run(deltas).frames_left() + deltas.len() <= stage.frames_left()
            || stage.run(deltas).settled(),
    decreases deltas.len(),
{
    if deltas.len() > 0 {
        let head = deltas.drop_last();
        assert forall|i: int| 0 <= i < head.len() implies #[trigger] head[i] > 0 by {
            assert(head[i] == deltas[i]);
        }
        lemma_run_counts(stage, head);
        let before = stage.run(head);
        if !before.settled() {
            lemma_frame_counts(before, deltas.last());
        }
    }
}

/// A chain of easings that each run once is drained: driven by frames that
/// take time, and by enough of them, it has begun every one of its links,
/// in order, and has left neither an easing nor a chain on the entity.
pub proof fn theorem_chain_drains(links: Seq<Motion>, deltas: Seq<nat>)
    requires
        links.len() > 0,
        forall|i: int| 0 <= i < links.len() ==> (#[trigger] links[i]).ends(),
        forall|i: int| 0 <= i < deltas.len() ==> #[trigger] deltas[i] > 0,
        deltas.len() >= chain_frames(links),
    ensures
        Stage::queued(links).run(deltas).settled(),
        Stage::queued(links).begun(deltas).len() == links.len(),
        forall|i: int|
            0 <= i < links.len() ==> Stage::queued(links).begun(deltas)[i] == links[links.len() - 1
                - i],
{
    let start = Stage::queued(links);
    lemma_run_counts(start, deltas);
    let end = start.run(deltas);
    if !end.settled() {
        assert(end.frames_left() == 0);
        match end.easing {
            Some(m) => {},
            None => {
                let left = end.chain->0;
                assert(left.len() > 0);
            },
        }
    }
    theorem_chain_runs_in_order(links, deltas);
}

} // verus!
