//! Sets of conditions as the kernel's event masks, and back.
//!
//! The kernel has a bit for three of the conditions that a set can be
//! built with: `Read`, `Write` and `Error`. Those three are carried in both
//! directions, and everything else is dropped on either side.

use crate::events::{Event, Events};
use crate::sys::{epollerr, epollin, epollout, errored, readable, writable};
use vstd::prelude::*;
use vstd::std_specs::convert::FromSpecImpl;

verus! {

/// The three conditions that the kernel has a bit for.
pub open spec fn carried() -> Set<Event> {
    set![Event::Read, Event::Write, Event::Error]
}

/// The kernel mask that stands for a set of conditions.
pub open spec fn mask_of(s: Set<Event>) -> u32 {
    (if s.contains(Event::Read) { readable() } else { 0 })
    | (if s.contains(Event::Write) { writable() } else { 0 })
    | (if s.contains(Event::Error) { errored() } else { 0 })
}

/// The conditions that a kernel mask reports.
pub open spec fn set_of(mask: u32) -> Set<Event> {
    Set::new(
        |e: Event|
            match e {
                Event::Read => mask & readable() == readable(),
                Event::Write => mask & writable() == writable(),
                Event::Error => mask & errored() == errored(),
                _ => false,
            },
    )
}

/// The value that holds what a kernel mask reports.
pub open spec fn events_of(mask: u32) -> Events {
    let none = Events::zero();
    let r = if mask & readable() == readable() {
        none.with(Event::Read)
    } else {
        none
    };
    let w = if mask & writable() == writable() {
        r.with(Event::Write)
    } else {
        r
    };
    if mask & errored() == errored() {
        w.with(Event::Error)
    } else {
        w
    }
}

impl From<Events> for u32 {
    /// The kernel mask for a set: `mask_of` what the set holds.
    fn from(events: Events) -> (mask: u32)
        ensures
            mask == mask_of(events@),
    {
        let read: u32 = if events.has_read() { epollin() } else { 0 };
        let write: u32 = if events.has_write() { epollout() } else { 0 };
        let error: u32 = if events.has_error() { epollerr() } else { 0 };
        read | write | error
    }
}

impl FromSpecImpl<Events> for u32 {
    open spec fn obeys_from_spec() -> bool {
        true
    }

    open spec fn from_spec(events: Events) -> u32 {
        mask_of(events@)
    }
}

impl From<u32> for Events {
    /// The set that a kernel mask reports: `events_of` the mask, which
    /// holds `set_of` the mask.
    fn from(mask: u32) -> (events: Events)
        ensures
            events == events_of(mask),
            events@ == set_of(mask),
    {
        let mut events = Events::new();
        if (mask & epollin()) == epollin() {
            events = events.read();
        }
        if (mask & epollout()) == epollout() {
            events = events.write();
        }
        if (mask & epollerr()) == epollerr() {
            events = events.error();
        }
        proof {
            lemma_events_of(mask);
        }
        events
    }
}

impl FromSpecImpl<u32> for Events {
    open spec fn obeys_from_spec() -> bool {
        true
    }

    open spec fn from_spec(mask: u32) -> Events {
        events_of(mask)
    }
}

proof fn lemma_compose(r: bool, w: bool, e: bool)
    by (bit_vector)
    ensures
        ({
            let m = (if r { 0x001u32 } else { 0 }) | (if w { 0x004u32 } else { 0 }) | (if e {
                0x008u32
            } else {
                0
            });
            &&& (m & 0x001 == 0x001) == r
            &&& (m & 0x004 == 0x004) == w
            &&& (m & 0x008 == 0x008) == e
        }),
{
}

proof fn lemma_decompose(m: u32)
    by (bit_vector)
    ensures
        (if m & 0x001 == 0x001 { 0x001u32 } else { 0 })
            | (if m & 0x004 == 0x004 { 0x004u32 } else { 0 })
            | (if m & 0x008 == 0x008 { 0x008u32 } else { 0 }) == m & 0x00D,
{
}

/// The value for a kernel mask is well formed and holds what the mask
/// reports.
pub proof fn lemma_events_of(mask: u32)
    ensures
        events_of(mask)@ == set_of(mask),
        events_of(mask).wf(),
{
    let none = Events::zero();
    Events::lemma_zero_view();
    let r = if mask & readable() == readable() { none.with(Event::Read) } else { none };
    none.lemma_with_view(Event::Read);
    let w = if mask & writable() == writable() { r.with(Event::Write) } else { r };
    r.lemma_with_view(Event::Write);
    w.lemma_with_view(Event::Error);
    assert(events_of(mask)@ =~= set_of(mask));
}

/// A set that goes to the kernel's mask and back keeps `Read`, `Write` and
/// `Error` exactly as it held them, and holds nothing else: the other
/// conditions do not survive the round.
pub proof fn law_set_round_trip(s: Set<Event>)
    ensures
        set_of(mask_of(s)) == s.intersect(carried()),
        events_of(mask_of(s))@ == s.intersect(carried()),
        s.subset_of(carried()) ==> set_of(mask_of(s)) == s,
{
    lemma_compose(s.contains(Event::Read), s.contains(Event::Write), s.contains(Event::Error));
    lemma_events_of(mask_of(s));
    assert(set_of(mask_of(s)) =~= s.intersect(carried()));
    if s.subset_of(carried()) {
        assert(s.intersect(carried()) =~= s);
    }
}

/// A mask that goes to a set and back keeps the three bits that the kernel
/// shares with the sets, and no other bit.
pub proof fn law_mask_round_trip(mask: u32)
    ensures
        mask_of(set_of(mask)) == mask & (readable() | writable() | errored()),
        mask_of(events_of(mask)@) == mask & (readable() | writable() | errored()),
{
    lemma_events_of(mask);
    lemma_decompose(mask);
    assert(0x001u32 | 0x004u32 | 0x008u32 == 0x00Du32) by (bit_vector);
}

} // verus!
