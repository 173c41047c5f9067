//! One frame of one entity: the active easing is advanced, or, where there
//! is none, the next one is taken from the chain.

use crate::chain::{ChainStep, EasingChainComponent};
use crate::clock::duration_nanos;
use crate::component::{EasingComponent, EasingStep, EasingView};
use crate::stage::{motions, Stage};
use std::time::Duration;
use vstd::prelude::*;

verus! {

/// What a frame has done for an entity, and what is left for its owner to
/// do.
pub enum Driven<T, M> {
    /// The entity has neither an easing nor a chain.
    Idle,
    /// The easing of the entity was advanced. The owner writes the value and
    /// detaches the easing as the step says.
    Eased(EasingStep),
    /// The entity had no easing, and its chain was asked for the next one.
    /// The owner attaches that easing, sets the value of the entity to its
    /// start, and detaches the chain if it is drained.
    Chained(ChainStep<T, M>),
}

impl<T, M> Driven<T, M> {
    /// The stage of the entity once its owner has done what the frame has
    /// left to do, where `easing` and `chain` are what the frame has left
    /// attached.
    pub open spec fn settle(
        self,
        easing: Option<EasingView<T, M>>,
        chain: Option<Seq<EasingView<T, M>>>,
    ) -> Stage {
        let left = Stage::of(easing, chain);
        match self {
            Driven::Idle => left,
            Driven::Eased(step) => Stage {
                easing: if step.detach {
                    None
                } else {
                    left.easing
                },
                ..left
            },
            Driven::Chained(step) => Stage {
                easing: match step.next {
                    Some(next) => Some(next@.motion),
                    None => None,
                },
                chain: if step.drained {
                    None
                } else {
                    left.chain
                },
            },
        }
    }
}

/// Runs one frame of length `delta` for an entity with the value `live`.
///
/// An easing on the entity is advanced, and a chain beside it is left alone.
/// Without an easing, the next one is taken from the chain. Once the owner
/// has done what is left to do, the entity stands as `Stage::after` says.
pub fn drive<T: Default, M>(
    easing: Option<&mut EasingComponent<T, M>>,
    chain: Option<&mut EasingChainComponent<T, M>>,
    live: &mut T,
    delta: Duration,
) -> (driven: Driven<T, M>)
    ensures
        match easing {
            Some(easing) => {
                &&& driven matches Driven::Eased(step)
                &&& step@ == easing@.motion.frame(duration_nanos(delta))
                &&& final(easing)@ == easing@.with_motion(
                    easing@.motion.after(duration_nanos(delta)),
                )
                &&& *final(live) == *old(live)
                &&& chain matches Some(chain) ==> *final(chain) == *chain
            },
            None => match chain {
                Some(chain) => {
                    &&& driven matches Driven::Chained(step)
                    &&& step.takes(chain@, *old(live), final(chain)@, *final(live))
                },
                None => driven is Idle && *final(live) == *old(live),
            },
        },
        driven.settle(
            match easing {
                Some(easing) => Some(final(easing)@),
                None => None,
            },
            match chain {
                Some(chain) => Some(final(chain)@),
                None => None,
            },
        ) == Stage::of(
            match easing {
                Some(easing) => Some(easing@),
                None => None,
            },
            match chain {
                Some(chain) => Some(chain@),
                None => None,
            },
        ).after(duration_nanos(delta)),
{
    match easing {
        Some(easing) => Driven::Eased(easing.tick(delta)),
        None => match chain {
            Some(chain) => {
                let ghost links = chain@;
                let step = chain.take_next(live);
                proof {
                    if links.len() > 0 {
                        assert(motions(links).last() == links.last().motion);
                        assert(motions(links.drop_last()) =~= motions(links).drop_last());
                    }
                }
                Driven::Chained(step)
            },
            None => Driven::Idle,
        },
    }
}

} // verus!
