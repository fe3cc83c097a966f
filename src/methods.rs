//! Effects that the widget library applies to existing elements.

pub mod ripple;

pub use ripple::{ripple_step, Ripple, RippleOptions};
