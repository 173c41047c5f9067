//! Easing of component values over time: the descriptors that say how a value
//! moves from a start to an end, the chains that queue them, and the
//! per-frame decisions that advance them.

pub mod chain;
pub mod clock;
pub mod component;
pub mod driver;
pub mod ease;
pub mod frames;
pub mod motion;
pub mod policy;
pub mod stage;

pub use chain::{ChainStep, EasingChainComponent};
pub use driver::{drive, Driven};
pub use ease::{CustomComponentEase, Ease};
pub use component::{EaseValue, EasingComponent, EasingProgress, EasingStep, EasingView};
pub use motion::{Frame, Motion, Reading};
pub use stage::Stage;
pub use policy::{EasingDirection, EasingState, EasingType, RepeatPolicy};
