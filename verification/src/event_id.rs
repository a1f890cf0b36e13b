//! Capability tags.

use vstd::prelude::*;

verus! {

/// Names one kind of event, whatever type carries it.
///
/// Two tags name the same capability exactly when they are equal: there is no
/// order and no hierarchy among them.
#[derive(Clone, Copy, PartialEq, Eq, Structural, Debug, Hash)]
pub enum EventId {
    /// The state of the game is to be advanced; the payload is an `UpdateArgs`.
    Update,
    /// A frame is to be drawn; the payload is a `RenderArgs`.
    Render,
    /// A capability of an input layer, under a number that the layer chose.
    Custom(u64),
}

} // verus!
