//! Animated transition primitives for a reactive user interface layer.
//!
//! The heart of the crate is a bistable transition controller
//! ([`transition::BistableTransition`]): a timed state machine that turns a
//! boolean "wanted open" signal into a six-phase lifecycle
//! (`EnterStart -> Entering -> Entered -> ExitStart -> Exiting -> Exited`)
//! that widgets can branch on, together with a restartable linear
//! interpolator for entity properties ([`animate::TransitionStore`]).
//! Time and property channels are plain integers: durations are
//! milliseconds, property values fixed-point with one million units to one.
//!
//! The host engine owns rendering, input and the scene graph; it drives this
//! crate once per frame with a delta time and applies the property writes
//! the crate hands back.

pub mod animate;
pub mod colors;
pub mod dialog;
pub mod focus;
pub mod style;
pub mod transition;
