//! Declarative animation primitives: easing presets, a tween state machine,
//! the target and priority rules behind motion elements, and the hover and
//! tap detection that drives them.
//!
//! Property values are generic (`V`); the rules here hold for any value
//! type.
pub mod easing;
pub mod interaction;
pub mod motion;
pub mod time;
pub mod tween;

pub use easing::Easing;
pub use motion::{MotionBuilder, Property, PropertyTarget};
pub use time::Duration;
pub use tween::{Progress, Tween};
