//! The event of a game loop.

use vstd::prelude::*;
use input::{RenderArgs, UpdateArgs};
use crate::args::Args;
use crate::event_id::EventId;
use crate::generic_event::{visited, GenericEvent};

verus! {

/// Contains the different game events.
#[derive(PartialEq, Debug)]
pub enum Event<I> {
    /// Render graphics.
    Render(RenderArgs),
    /// Update physical state of the game.
    Update(UpdateArgs),
    /// Input event.
    Input(I),
}

impl<I: Clone> Clone for Event<I> {
    /// The clone is of the same case, with a copy of the payload, or with
    /// what `I::clone` made of the input event.
    fn clone(&self) -> (r: Self)
        ensures
            match *self {
                Event::Render(args) => r == Event::<I>::Render(args),
                Event::Update(args) => r == Event::<I>::Update(args),
                Event::Input(input) => r matches Event::Input(copy) && call_ensures(
                    I::clone,
                    (&input,),
                    copy,
                ),
            },
    {
        match self {
            Event::Render(args) => Event::Render(*args),
            Event::Update(args) => Event::Update(*args),
            Event::Input(input) => Event::Input(input.clone()),
        }
    }
}

impl<I: GenericEvent> GenericEvent for Event<I> {
    type Extra = I::Extra;

    /// Update and render each go with their own kind of payload; for every
    /// other tag the input layer decides.
    open spec fn well_typed(id: EventId, args: Args<I::Extra>) -> bool {
        match id {
            EventId::Update => args is Update,
            EventId::Render => args is Render,
            EventId::Custom(_) => I::well_typed(id, args),
        }
    }

    /// Update and render make their own case; every other tag makes what the
    /// input layer makes of it, as an input event.
    open spec fn from_event_spec(id: EventId, args: Args<I::Extra>) -> Option<Self> {
        match id {
            EventId::Update => match args {
                Args::Update(update) => Some(Event::Update(update)),
                _ => None,
            },
            EventId::Render => match args {
                Args::Render(render) => Some(Event::Render(render)),
                _ => None,
            },
            EventId::Custom(_) => match I::from_event_spec(id, args) {
                Some(input) => Some(Event::Input(input)),
                None => None,
            },
        }
    }

    /// An update shows its payload under the update tag, a render under the
    /// render tag, and an input event what it shows itself, under every other
    /// tag.
    open spec fn payload(&self, id: EventId) -> Option<Args<I::Extra>> {
        match id {
            EventId::Update => match *self {
                Event::Update(update) => Some(Args::Update(update)),
                _ => None,
            },
            EventId::Render => match *self {
                Event::Render(render) => Some(Args::Render(render)),
                _ => None,
            },
            EventId::Custom(_) => match *self {
                Event::Input(input) => input.payload(id),
                _ => None,
            },
        }
    }

    /// Builds an update from an update payload, a render from a render
    /// payload, and under every other tag the input event that the input
    /// layer builds, if it builds one.
    fn from_event(id: EventId, args: &Args<I::Extra>) -> (r: Option<Self>)
        ensures
            r == Self::from_event_spec(id, *args),
            r is None <==> id is Custom && I::from_event_spec(id, *args) is None,
    {
        match id {
            EventId::Update => match args {
                Args::Update(update) => Some(Event::Update(*update)),
                _ => vstd::pervasive::unreached(),
            },
            EventId::Render => match args {
                Args::Render(render) => Some(Event::Render(*render)),
                _ => vstd::pervasive::unreached(),
            },
            EventId::Custom(_) => match I::from_event(id, args) {
                Some(input) => Some(Event::Input(input)),
                None => None,
            },
        }
    }

    /// Runs `f` on the payload of an update under the update tag and of a
    /// render under the render tag, hands every other tag on to an input
    /// event, and does nothing where tag and event do not match.
    fn with_event<F, R>(&self, id: EventId, f: F) -> (r: Option<R>) where
        F: FnOnce(&Args<I::Extra>) -> R,

        ensures
            visited(self.payload(id), f, r),
            r is Some <==> self.payload(id) is Some,
    {
        match id {
            EventId::Update => match self {
                Event::Update(update) => {
                    let args = Args::Update(*update);
                    Some(f(&args))
                },
                _ => None,
            },
            EventId::Render => match self {
                Event::Render(render) => {
                    let args = Args::Render(*render);
                    Some(f(&args))
                },
                _ => None,
            },
            EventId::Custom(_) => match self {
                Event::Input(input) => input.with_event(id, f),
                _ => None,
            },
        }
    }
}

/// An update survives the round trip: the update tag and an update payload
/// make an update event, a visit of that event under the update tag runs the
/// callback on that same payload, and a visit under the render tag does not
/// run it.
pub proof fn lemma_update_round_trip<I, F, R>(
    update: UpdateArgs,
    f: F,
    seen: Option<R>,
    unseen: Option<R>,
) where I: GenericEvent, F: FnOnce(&Args<I::Extra>) -> R
    requires
        visited(Event::<I>::Update(update).payload(EventId::Update), f, seen),
        visited(Event::<I>::Update(update).payload(EventId::Render), f, unseen),
    ensures
        Event::<I>::well_typed(EventId::Update, Args::Update(update)),
        Event::<I>::from_event_spec(EventId::Update, Args::Update(update)) == Some(
            Event::<I>::Update(update),
        ),
        Event::<I>::Update(update).payload(EventId::Update) == Some(
            Args::<I::Extra>::Update(update),
        ),
        seen matches Some(out) && call_ensures(f, (&Args::Update(update),), out),
        Event::<I>::Update(update).payload(EventId::Render) is None,
        unseen is None,
{
}

/// A render survives the round trip: the render tag and a render payload
/// make a render event, a visit of that event under the render tag runs the
/// callback on that same payload, and a visit under the update tag does not
/// run it.
pub proof fn lemma_render_round_trip<I, F, R>(
    render: RenderArgs,
    f: F,
    seen: Option<R>,
    unseen: Option<R>,
) where I: GenericEvent, F: FnOnce(&Args<I::Extra>) -> R
    requires
        visited(Event::<I>::Render(render).payload(EventId::Render), f, seen),
        visited(Event::<I>::Render(render).payload(EventId::Update), f, unseen),
    ensures
        Event::<I>::well_typed(EventId::Render, Args::Render(render)),
        Event::<I>::from_event_spec(EventId::Render, Args::Render(render)) == Some(
            Event::<I>::Render(render),
        ),
        Event::<I>::Render(render).payload(EventId::Render) == Some(
            Args::<I::Extra>::Render(render),
        ),
        seen matches Some(out) && call_ensures(f, (&Args::Render(render),), out),
        Event::<I>::Render(render).payload(EventId::Update) is None,
        unseen is None,
{
}

/// A tag that is neither update nor render, and of which the input layer
/// makes nothing, makes no event, whatever the payload; which payloads may
/// be passed with such a tag is for the input layer to say.
pub proof fn lemma_unknown_tag_is_absent<I: GenericEvent>(id: EventId, args: Args<I::Extra>)
    requires
        id != EventId::Update,
        id != EventId::Render,
        I::from_event_spec(id, args) is None,
    ensures
        Event::<I>::well_typed(id, args) == I::well_typed(id, args),
        Event::<I>::from_event_spec(id, args) is None,
{
}

/// A tag that only the input layer knows makes the input layer's own event,
/// held as an input event; the payloads that go with the tag are the input
/// layer's, and the event shows under the tag what the input event shows.
pub proof fn lemma_input_tag_delegates<I: GenericEvent>(
    id: EventId,
    args: Args<I::Extra>,
    input: I,
)
    requires
        id != EventId::Update,
        id != EventId::Render,
        I::from_event_spec(id, args) == Some(input),
    ensures
        Event::<I>::well_typed(id, args) == I::well_typed(id, args),
        Event::<I>::from_event_spec(id, args) == Some(Event::Input(input)),
        Event::Input(input).payload(id) == input.payload(id),
{
}

} // verus!
