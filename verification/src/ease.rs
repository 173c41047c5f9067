//! The calls that start an easing from a value.

use crate::component::{EasingComponent, EasingView};
use crate::policy::EasingType;
use vstd::prelude::*;

verus! {

/// Values that can be eased.
pub trait Ease: Sized {
    /// Creates a new easing towards `end`. Without a start, the value found
    /// on the entity is used when the easing is taken from a chain.
    fn ease<M>(start: Option<Self>, end: Self, ease_function: M, easing_type: EasingType) -> (r:
        EasingComponent<Self, M>)
        ensures
            r@ == EasingView::fresh(start, end, ease_function, easing_type@),
    {
        EasingComponent::new(start, end, ease_function, easing_type)
    }

    /// Creates a new easing that starts at this value.
    fn ease_to<M>(self, target: Self, ease_function: M, easing_type: EasingType) -> (r:
        EasingComponent<Self, M>)
        ensures
            r@ == EasingView::fresh(Some(self), target, ease_function, easing_type@),
    {
        EasingComponent::new(Some(self), target, ease_function, easing_type)
    }

    /// Creates a new easing that starts at this value and ends at the value
    /// that `target_fn` computes from it.
    fn ease_to_fn<M, F: FnOnce(&Self) -> Self>(
        self,
        target_fn: F,
        ease_function: M,
        easing_type: EasingType,
    ) -> (r: EasingComponent<Self, M>)
        requires
            target_fn.requires((&self,)),
        ensures
            target_fn.ensures((&self,), r@.end),
            r@ == EasingView::fresh(Some(self), r@.end, ease_function, easing_type@),
    {
        let target = target_fn(&self);
        EasingComponent::new(Some(self), target, ease_function, easing_type)
    }
}

impl<T> Ease for T {
}

/// Components of an application's own that can be eased.
pub trait CustomComponentEase: Sized {
    /// Creates a new easing towards `end`. Without a start, the value found
    /// on the entity is used when the easing is taken from a chain.
    fn ease<M>(start: Option<Self>, end: Self, ease_function: M, easing_type: EasingType) -> (r:
        EasingComponent<Self, M>)
        ensures
            r@ == EasingView::fresh(start, end, ease_function, easing_type@),
    {
        EasingComponent::new(start, end, ease_function, easing_type)
    }

    /// Creates a new easing that starts at this value.
    fn ease_to<M>(self, target: Self, ease_function: M, easing_type: EasingType) -> (r:
        EasingComponent<Self, M>)
        ensures
            r@ == EasingView::fresh(Some(self), target, ease_function, easing_type@),
    {
        EasingComponent::new(Some(self), target, ease_function, easing_type)
    }

    /// Creates a new easing that starts at this value and ends at the value
    /// that `target_fn` computes from it.
    fn ease_to_fn<M, F: FnOnce(&Self) -> Self>(
        self,
        target_fn: F,
        ease_function: M,
        easing_type: EasingType,
    ) -> (r: EasingComponent<Self, M>)
        requires
            target_fn.requires((&self,)),
        ensures
            target_fn.ensures((&self,), r@.end),
            r@ == EasingView::fresh(Some(self), r@.end, ease_function, easing_type@),
    {
        let target = target_fn(&self);
        EasingComponent::new(Some(self), target, ease_function, easing_type)
    }
}

impl<T> CustomComponentEase for T {
}

} // verus!
