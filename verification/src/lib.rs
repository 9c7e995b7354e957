//! Decision logic of a minimal clear-screen renderer: which adapter and queue
//! family to draw with, how device setup proceeds and fails, how the frames
//! in flight take turns, what is submitted for each frame, and when the main
//! loop ends.
//!
//! The crate does no window or GPU work itself. Each part is a state machine:
//! a driver performs the action that a step hands out and reports the outcome
//! as the next event.
//!
//! - [`window`]: the window to open, and what its events ask for.
//! - [`adapter`]: the choice of adapter and queue family.
//! - [`setup`]: device setup, from listing the adapters to a usable queue.
//! - [`frame`]: [`HalState`] and the drawing of one frame.
//! - [`run`]: the main loop.
//! - [`slots`]: the one-place lists that a submission is made of.
//! - [`error`]: what can go wrong, with the messages.

pub mod adapter;
pub mod error;
pub mod frame;
pub mod run;
pub mod setup;
pub mod slots;
pub mod window;

pub use crate::frame::HalState;
pub use crate::run::do_the_render;
