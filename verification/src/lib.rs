//! Events of a game loop, reached through capability tags.
//!
//! An [`Event`] is a frame to render, a step to update, or an event of a
//! nested input layer. Code that knows only a capability's [`EventId`] can
//! build an event from a payload of that capability, or look at the payload of
//! an event that has it, through the two operations of [`GenericEvent`]. The
//! nested input layer is any type with the same two operations, so layers of
//! input events compose without the outer event naming them.

pub mod args;
pub mod event;
pub mod event_id;
pub mod generic_event;

pub use args::Args;
pub use event::Event;
pub use event_id::EventId;
pub use generic_event::GenericEvent;
