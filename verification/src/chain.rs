//! A queue of easings for one value, run one after the other.

use crate::clock::duration_nanos;
use crate::component::{EasingComponent, EasingView};
use crate::policy::EasingType;
use std::time::Duration;
use vstd::prelude::*;

verus! {

/// A chain of easings. They are stored in reverse: the easing to run next is
/// the last one.
pub struct EasingChainComponent<T, M>(Vec<EasingComponent<T, M>>);

impl<T, M> View for EasingChainComponent<T, M> {
    type V = Seq<EasingView<T, M>>;

    closed spec fn view(&self) -> Seq<EasingView<T, M>> {
        Seq::new(self.0@.len(), |i: int| self.0@[i]@)
    }
}

/// What taking the next easing from a chain gives.
pub struct ChainStep<T, M> {
    /// The easing to attach to the entity, with its start value in place.
    /// The value on the entity is to be set to that start.
    pub next: Option<EasingComponent<T, M>>,
    /// The chain holds nothing any more and is to be detached.
    pub drained: bool,
}

impl<T: Default, M> ChainStep<T, M> {
    /// This is what taking the next easing gives, for a chain that held
    /// `links` on an entity whose value was `live`, and leaves `rest` in the
    /// chain and `left` on the entity.
    ///
    /// From an empty chain nothing is taken. Otherwise the last link leaves
    /// the chain; a start that it lacks is the value of the entity, which is
    /// then at its default. The chain is drained when nothing is left in it.
    pub open spec fn takes(
        self,
        links: Seq<EasingView<T, M>>,
        live: T,
        rest: Seq<EasingView<T, M>>,
        left: T,
    ) -> bool {
        if links.len() == 0 {
            &&& self.next is None
            &&& self.drained
            &&& rest == links
            &&& left == live
        } else {
            &&& self.next is Some
            &&& self.next->0@ == links.last().seeded(live)
            &&& self.drained == (links.len() == 1)
            &&& rest == links.drop_last()
            &&& match links.last().start {
                Some(_) => left == live,
                None => T::default.ensures((), left),
            }
        }
    }
}

/// The value from which the target of a new link is computed: a clone of
/// the start of the link that runs next, or the default where the chain or
/// that start is empty.
pub open spec fn chain_origin<T: Clone + Default, M>(links: Seq<EasingView<T, M>>, v: T) -> bool {
    if links.len() > 0 {
        match links.last().start {
            Some(start) => cloned(start, v),
            None => T::default.ensures((), v),
        }
    } else {
        T::default.ensures((), v)
    }
}

/// `links` repeated: `copy` holds `rounds` clones of the whole sequence, one
/// after the other.
pub open spec fn repeated<T: Clone, M: Clone>(
    links: Seq<EasingView<T, M>>,
    rounds: nat,
    copy: Seq<EasingView<T, M>>,
) -> bool {
    &&& copy.len() == links.len() * rounds
    &&& forall|i: int|
        0 <= i < copy.len() ==> links[i % (links.len() as int)].cloned_to(#[trigger] copy[i])
}

impl<T, M> EasingChainComponent<T, M> {
    /// The chain in which `first` runs and then `next`.
    pub(crate) fn pair(next: EasingComponent<T, M>, first: EasingComponent<T, M>) -> (chain: Self)
        ensures
            chain@ == seq![next@, first@],
    {
        let mut links = Vec::new();
        links.push(next);
        links.push(first);
        let chain = EasingChainComponent(links);
        assert(chain@ =~= seq![next@, first@]);
        chain
    }

    /// The number of easings still waiting in the chain.
    pub fn len(&self) -> (n: usize)
        ensures
            n == self@.len(),
    {
        self.0.len()
    }

    /// Adds a new easing at the end of the chain: it runs after all the
    /// others, from wherever they have left the value to `end`.
    pub fn ease_to(self, end: T, ease_function: M, easing_type: EasingType) -> (chain: Self)
        ensures
            chain@ == seq![EasingView::fresh(None, end, ease_function, easing_type@)] + self@,
    {
        let next = EasingComponent::new(None, end, ease_function, easing_type);
        let mut chain = self;
        chain.0.insert(0, next);
        assert(chain@ =~= seq![EasingView::fresh(None, end, ease_function, easing_type@)]
            + self@);
        chain
    }

    /// The starting value of the chain together with the chain: a clone of
    /// the start of the easing that runs next, or the default where it has
    /// none.
    pub fn with_original_value(self) -> (r: (T, Self))
        where T: Clone + Default
        requires
            self@.len() > 0,
        ensures
            chain_origin(self@, r.0),
            r.1 == self,
    {
        let last = &self.0[self.0.len() - 1];
        let value = match last.start() {
            Some(start) => start.clone(),
            None => T::default(),
        };
        assert(self@.last() == self.0@[self.0@.len() - 1]@);
        (value, self)
    }

    /// Adds a new easing at the end of the chain as `ease_to` does, with an
    /// end value that `target_fn` computes from the starting value of the
    /// chain.
    pub fn ease_to_fn<F: FnOnce(&T) -> T>(
        self,
        target_fn: F,
        ease_function: M,
        easing_type: EasingType,
    ) -> (chain: Self)
        where T: Clone + Default
        requires
            forall|v: T| chain_origin(self@, v) ==> target_fn.requires((&v,)),
        ensures
            chain@.len() == self@.len() + 1,
            exists|v: T| chain_origin(self@, v) && target_fn.ensures((&v,), chain@[0].end),
            chain@ == seq![EasingView::fresh(None, chain@[0].end, ease_function, easing_type@)]
                + self@,
    {
        let origin = if self.0.len() > 0 {
            match self.0[self.0.len() - 1].start() {
                Some(start) => start.clone(),
                None => T::default(),
            }
        } else {
            T::default()
        };
        assert(chain_origin(self@, origin)) by {
            if self@.len() > 0 {
                assert(self@.last() == self.0@[self.0@.len() - 1]@);
            }
        }
        let target = target_fn(&origin);
        self.ease_to(target, ease_function, easing_type)
    }

    /// Repeats the chain `n` times. Asking for no repetition at all gives
    /// the chain once, as asking for one does.
    pub fn repeat(self, n: usize) -> (chain: Self)
        where T: Clone, M: Clone
        requires
            self@.len() * n <= usize::MAX,
        ensures
            repeated(self@, if n == 0 { 1 } else { n as nat }, chain@),
    {
        let rounds = if n == 0 { 1 } else { n };
        let len = self.0.len();
        let mut links: Vec<EasingComponent<T, M>> = Vec::new();
        let mut round: usize = 0;
        while round < rounds
            invariant
                round <= rounds,
                len == self.0@.len(),
                len * rounds <= usize::MAX,
                links@.len() == len * round,
                forall|i: int|
                    0 <= i < links@.len() ==> self.0@[i % (len as int)]@.cloned_to(
                        #[trigger] links@[i]@,
                    ),
            decreases rounds - round,
        {
            let mut at: usize = 0;
            while at < len
                invariant
                    round < rounds,
                    at <= len,
                    len == self.0@.len(),
                    len * rounds <= usize::MAX,
                    links@.len() == len * round + at,
                    forall|i: int|
                        0 <= i < links@.len() ==> self.0@[i % (len as int)]@.cloned_to(
                            #[trigger] links@[i]@,
                        ),
                decreases len - at,
            {
                proof {
                    lemma_slot(len as int, round as int, rounds as int, at as int);
                }
                let copy = self.0[at].clone();
                links.push(copy);
                at = at + 1;
            }
            round = round + 1;
            assert(len * round == len * (round - 1) + len) by (nonlinear_arith);
        }
        let chain = EasingChainComponent(links);
        assert(repeated(self@, rounds as nat, chain@));
        chain
    }

    /// Adds a delay before the easing that was added first.
    pub fn delay(self, duration: Duration) -> (chain: Self)
        requires
            self@.len() > 0,
        ensures
            chain@ == self@.update(
                0,
                self@[0].with_motion(self@[0].motion.delayed(duration_nanos(duration))),
            ),
    {
        let mut chain = self;
        let first = chain.0.remove(0);
        chain.0.insert(0, first.delay(duration));
        assert(chain@ =~= self@.update(
            0,
            self@[0].with_motion(self@[0].motion.delayed(duration_nanos(duration))),
        ));
        chain
    }

    /// Takes the easing that runs next out of the chain. Where it has no
    /// start yet, the value on the entity becomes its start, and `live` is
    /// left at its default until the start is written back.
    pub fn take_next(&mut self, live: &mut T) -> (step: ChainStep<T, M>)
        where T: Default
        ensures
            step.takes(old(self)@, *old(live), final(self)@, *final(live)),
    {
        match self.0.pop() {
            Some(next) => {
                let mut next = next;
                next.capture_start(live);
                assert(final(self)@ =~= old(self)@.drop_last());
                ChainStep { next: Some(next), drained: self.0.len() == 0 }
            },
            None => {
                assert(final(self)@ =~= old(self)@);
                ChainStep { next: None, drained: true }
            },
        }
    }
}

/// The place `len * round + at` holds the link `at` of round `round`.
proof fn lemma_slot(len: int, round: int, rounds: int, at: int)
    requires
        0 <= at < len,
        0 <= round < rounds,
    ensures
        (len * round + at) % len == at,
        len * round + at < len * rounds,
        len * round + at + 1 <= len * (round + 1),
{
    assert(len * round + at == round * len + at) by (nonlinear_arith);
    vstd::arithmetic::div_mod::lemma_fundamental_div_mod_converse(len * round + at, len, round, at);
    assert(len * (round + 1) == len * round + len) by (nonlinear_arith);
    assert(len * (round + 1) <= len * rounds) by (nonlinear_arith)
        requires
            round + 1 <= rounds,
            len > 0,
    ;
}

} // verus!
