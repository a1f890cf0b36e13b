//! Payloads, passed without static knowledge of the capability they belong to.

use vstd::prelude::*;
use input::{RenderArgs, UpdateArgs};

verus! {

/// `input::UpdateArgs`, the payload of an update: a time step.
///
/// Nothing is stated of what a value holds. The library copies such a value
/// (the type is `Copy`) and never looks inside.
#[verifier::external_type_specification]
#[verifier::external_body]
pub struct ExUpdateArgs(input::UpdateArgs);

/// `input::RenderArgs`, the payload of a render: an extrapolated time step
/// and the size of the area to draw.
///
/// Nothing is stated of what a value holds. The library copies such a value
/// (the type is `Copy`) and never looks inside.
#[verifier::external_type_specification]
#[verifier::external_body]
pub struct ExRenderArgs(input::RenderArgs);

/// A payload whose kind is known only at run time.
///
/// `X` is what the input layers in use carry beside the two built-in kinds.
#[derive(PartialEq, Debug)]
pub enum Args<X> {
    /// The payload of [`EventId::Update`](crate::EventId::Update).
    Update(UpdateArgs),
    /// The payload of [`EventId::Render`](crate::EventId::Render).
    Render(RenderArgs),
    /// A payload of an input layer.
    Custom(X),
}

} // verus!
