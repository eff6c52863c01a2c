//! What the backends share of the registry of watched descriptors: the
//! shape of what is delivered, and the context that goes with an event.

use crate::events::{Event, Events};
use std::collections::HashMap;
use vstd::prelude::*;

verus! {

/// What is delivered for one ready descriptor: the descriptor, the
/// conditions seen on it, and the context that it was registered with.
pub type EventData<'a, C> = (i32, Events, Option<&'a C>);

/// The context that is handed out with an event on `fd`: the one that the
/// registry `watches` holds for it, if the descriptor is there and has one.
pub open spec fn context_of<C>(watches: Map<i32, (Events, Option<C>)>, fd: i32) -> Option<C> {
    if watches.contains_key(fd) {
        watches[fd].1
    } else {
        None
    }
}

/// Whether the reference `handed` out with an event is one to the context
/// `kept`, or none where none is kept.
pub open spec fn hands<C>(handed: Option<&C>, kept: Option<C>) -> bool {
    match handed {
        Some(c) => kept == Some(*c),
        None => kept is None,
    }
}

/// Whether `item` is the tuple that is delivered for the descriptor `fd` when
/// the conditions `events` were seen on it and the registry keeps `kept`
/// for it.
pub open spec fn carries<C>(
    item: EventData<C>,
    fd: i32,
    events: Set<Event>,
    kept: Option<C>,
) -> bool {
    &&& item.0 == fd
    &&& item.1@ == events
    &&& hands(item.2, kept)
}

/// The context that `watches` holds for `fd`.
pub fn lookup<'a, C>(watches: &'a HashMap<i32, (Events, Option<C>)>, fd: i32) -> (r: Option<&'a C>)
    ensures
        hands(r, context_of(watches@, fd)),
{
    match watches.get(&fd) {
        Some(entry) => entry.1.as_ref(),
        None => None,
    }
}

} // verus!
