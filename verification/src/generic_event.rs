//! The two operations that every event type offers.

use vstd::prelude::*;
use crate::args::Args;
use crate::event_id::EventId;

verus! {

/// An event type that can be built and inspected through capability tags.
///
/// An implementation says in three spec functions which payloads it takes,
/// what it builds from them, and what it shows; the two operations are then
/// held to those.
pub trait GenericEvent: Sized {
    /// What the input layers carry beside update and render payloads.
    type Extra;

    /// Whether `args` is of the kind that `id` promises, for the tags that
    /// this type and the layers below it pair with a kind of payload.
    spec fn well_typed(id: EventId, args: Args<Self::Extra>) -> bool;

    /// What `from_event` returns for a payload that goes with the tag: the
    /// event that `id` and `args` make, or `None` where neither this type nor
    /// a layer below it knows `id`.
    spec fn from_event_spec(id: EventId, args: Args<Self::Extra>) -> Option<Self>;

    /// What `with_event` hands to the callback: the payload that the event
    /// shows under `id`, or `None` where the event is not of that kind.
    spec fn payload(&self, id: EventId) -> Option<Args<Self::Extra>>;

    /// Builds the event that the capability `id` makes of `args`.
    ///
    /// To pass a payload of another kind than `id` promises is an error of
    /// the caller, and is excluded.
    fn from_event(id: EventId, args: &Args<Self::Extra>) -> (r: Option<Self>)
        requires
            Self::well_typed(id, *args),
        ensures
            r == Self::from_event_spec(id, *args),
    ;

    /// Calls `f` on the payload of the event if the event is of the kind
    /// `id`, and hands back what `f` returned; does nothing otherwise.
    fn with_event<F, R>(&self, id: EventId, f: F) -> (r: Option<R>) where
        F: FnOnce(&Args<Self::Extra>) -> R,

        requires
            self.payload(id) matches Some(a) ==> call_requires(f, (&a,)),
        ensures
            visited(self.payload(id), f, r),
    ;
}

/// What a visit leaves behind: where the event shows a payload, `f` ran on
/// that payload and `r` holds its result; where it shows none, `f` did not
/// run and `r` is `None`.
pub open spec fn visited<X, F, R>(shown: Option<Args<X>>, f: F, r: Option<R>) -> bool where
    F: FnOnce(&Args<X>) -> R,
 {
    match shown {
        Some(a) => r matches Some(out) && call_ensures(f, (&a,), out),
        None => r is None,
    }
}

/// Two visits of one event under one tag agree: both callbacks ran or
/// neither did, and where they ran, they ran on the same payload.
pub proof fn lemma_visits_agree<E, F, R, G, S>(
    event: &E,
    id: EventId,
    f: F,
    r: Option<R>,
    g: G,
    s: Option<S>,
) where E: GenericEvent, F: FnOnce(&Args<E::Extra>) -> R, G: FnOnce(&Args<E::Extra>) -> S
    requires
        visited(event.payload(id), f, r),
        visited(event.payload(id), g, s),
    ensures
        r is Some <==> s is Some,
        r is Some ==> exists|a: Args<E::Extra>|
            event.payload(id) == Some(a) && call_ensures(f, (&a,), r->0) && call_ensures(
                g,
                (&a,),
                s->0,
            ),
{
    if r is Some {
        let a = event.payload(id)->0;
        assert(event.payload(id) == Some(a) && call_ensures(f, (&a,), r->0) && call_ensures(
            g,
            (&a,),
            s->0,
        ));
    }
}

} // verus!
