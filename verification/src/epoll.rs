//! The registry of watched descriptors and the rules of the `epoll`
//! protocol.
//!
//! The kernel calls themselves are the caller's: each operation comes as a
//! request that says what to hand to the kernel, and a function that takes
//! the kernel's reply and settles what the operation returns and how the
//! registry changes.

use crate::error::{status, Reply, SysError};
use crate::events::{Event, Events};
use crate::mask::{carried, mask_of, set_of};
use crate::sys::{
    ctl_add, ctl_del, enoent, epoll_ctl_add, epoll_ctl_del, errored, no_entry, readable, writable,
};
use crate::registry::{carries, context_of, lookup, EventData};
use std::collections::HashMap;
use vstd::prelude::*;

verus! {

/// One entry of the array that the kernel fills on a wait: the mask of
/// what it saw, and the word that was registered with the descriptor.
#[derive(Clone, Copy, Debug, PartialEq, Eq, Structural)]
pub struct RawEvent {
    pub events: u32,
    pub data: u64,
}

/// A kernel call that an operation asks for. Whoever performs it hands the
/// kernel's reply to the function that settles the operation.
#[derive(Clone, Copy, Debug, PartialEq, Eq, Structural)]
pub enum Request {
    /// `epoll_create1` with these flags.
    Create { flags: i32 },
    /// `epoll_ctl` on the handle `epoll_fd`, with the operation `op` for the
    /// descriptor `fd`. `event` is the entry that the call points to;
    /// without one, the call gets a null pointer.
    Control { epoll_fd: i32, op: i32, fd: i32, event: Option<RawEvent> },
    /// `epoll_wait` on the handle `epoll_fd`, with an array of `capacity`
    /// entries to fill, of which the kernel is told `max_events`. The
    /// kernel takes no wait for less than one entry.
    Wait { epoll_fd: i32, capacity: usize, max_events: i32, timeout_ms: i32 },
    /// `close` of the handle `fd`.
    Close { fd: i32 },
}

impl Request {
    /// The call that the construction of a multiplexer starts with:
    /// `epoll_create1` without flags.
    pub fn create() -> (r: Request)
        ensures
            r == (Request::Create { flags: 0 }),
    {
        Request::Create { flags: 0 }
    }
}

/// The word that is registered with a descriptor: the descriptor itself,
/// widened with its sign.
pub open spec fn data_of(fd: i32) -> u64 {
    fd as u64
}

/// The descriptor that a registered word stands for: its low 32 bits.
pub open spec fn fd_of(data: u64) -> i32 {
    data as i32
}

/// A descriptor comes back from the word that it was registered with.
pub proof fn law_data_round_trip(fd: i32)
    ensures
        fd_of(data_of(fd)) == fd,
{
    assert((fd as u64) as i32 == fd) by (bit_vector);
}

/// What a multiplexer stands for: its kernel handle, and for each watched
/// descriptor the interest and the context that it was registered with.
pub ghost struct PollerView<C> {
    pub handle: i32,
    pub watches: Map<i32, (Events, Option<C>)>,
}

/// A readiness multiplexer: one kernel handle and the registry of what the
/// kernel was told to watch through it.
#[derive(Debug)]
pub struct Poller<C> {
    epoll_fd: i32,
    watches: HashMap<i32, (Events, Option<C>)>,
}

impl<C> View for Poller<C> {
    type V = PollerView<C>;

    closed spec fn view(&self) -> PollerView<C> {
        PollerView { handle: self.epoll_fd, watches: self.watches@ }
    }
}

impl<C> PollerView<C> {
    /// The context that is handed out with an event on `fd`.
    pub open spec fn context(self, fd: i32) -> Option<C> {
        context_of(self.watches, fd)
    }

    /// A multiplexer without a kernel handle that watches nothing.
    pub open spec fn shut() -> PollerView<C> {
        PollerView { handle: -1i32, watches: Map::empty() }
    }

    /// A multiplexer on the kernel handle `handle` that watches nothing.
    pub open spec fn opened(handle: i32) -> PollerView<C> {
        PollerView { handle, watches: Map::empty() }
    }

    /// The call that registers `fd` for `interest`.
    pub open spec fn add_request(self, fd: i32, interest: Events) -> Request {
        Request::Control {
            epoll_fd: self.handle,
            op: ctl_add(),
            fd,
            event: Some(RawEvent { events: mask_of(interest@), data: data_of(fd) }),
        }
    }

    /// The multiplexer after the kernel replied to the registration of
    /// `fd`: unchanged where the call failed, else with the entry for `fd`.
    pub open spec fn after_add(
        self,
        fd: i32,
        interest: Events,
        context: Option<C>,
        reply: Reply,
    ) -> PollerView<C> {
        if reply.value < 0 {
            self
        } else {
            PollerView { watches: self.watches.insert(fd, (interest, context)), ..self }
        }
    }

    /// The call that takes `fd` out, or the error for a descriptor that is
    /// not watched, for which no call is made.
    pub open spec fn remove_request(self, fd: i32) -> Result<Request, SysError> {
        if self.watches.contains_key(fd) {
            Ok(Request::Control { epoll_fd: self.handle, op: ctl_del(), fd, event: None })
        } else {
            Err(SysError(no_entry()))
        }
    }

    /// What the removal of `fd` returns once the kernel replied.
    pub open spec fn remove_outcome(self, fd: i32, reply: Reply) -> Result<(), SysError> {
        if !self.watches.contains_key(fd) {
            Err(SysError(no_entry()))
        } else {
            status(reply)
        }
    }

    /// The multiplexer after the removal of `fd`: without the entry where
    /// the removal succeeded, else unchanged.
    pub open spec fn after_remove(self, fd: i32, reply: Reply) -> PollerView<C> {
        if self.remove_outcome(fd, reply) is Ok {
            PollerView { watches: self.watches.remove(fd), ..self }
        } else {
            self
        }
    }

    /// The call that waits for readiness on what is watched.
    pub open spec fn wait_request(self, timeout_ms: i32) -> Request {
        Request::Wait {
            epoll_fd: self.handle,
            capacity: capacity(self.watches.len()) as usize,
            max_events: max_events(self.watches.len()),
            timeout_ms,
        }
    }

    /// The call that releases the kernel handle, if there is a handle.
    pub open spec fn close_request(self) -> Option<Request> {
        if self.handle >= 0 {
            Some(Request::Close { fd: self.handle })
        } else {
            None
        }
    }

    /// The multiplexer after `fd` was added and removed again once for
    /// each pair of replies in `replies`.
    pub open spec fn cycled(
        self,
        fd: i32,
        interest: Events,
        context: Option<C>,
        replies: Seq<(Reply, Reply)>,
    ) -> PollerView<C>
        decreases replies.len(),
    {
        if replies.len() == 0 {
            self
        } else {
            self.cycled(fd, interest, context, replies.drop_last()).after_add(
                fd,
                interest,
                context,
                replies.last().0,
            ).after_remove(fd, replies.last().1)
        }
    }

    /// Whether `item` is what is delivered for the kernel's entry `raw`.
    pub open spec fn delivers(self, raw: RawEvent, item: EventData<C>) -> bool {
        carries(item, fd_of(raw.data), set_of(raw.events), self.context(fd_of(raw.data)))
    }
}

/// The length of the array that a wait hands to the kernel when `len`
/// descriptors are watched: room for each of them, and room for one where
/// nothing is watched, since the kernel refuses a wait for no entry.
pub open spec fn capacity(len: nat) -> nat {
    if len == 0 {
        1
    } else {
        len
    }
}

/// The number of entries that the kernel is told it may fill when `len`
/// descriptors are watched: the length of the array, or the largest count
/// that the kernel takes where the array is longer than that.
pub open spec fn max_events(len: nat) -> i32 {
    if capacity(len) <= i32::MAX {
        capacity(len) as i32
    } else {
        i32::MAX
    }
}

/// How many entries of an array of `len` the kernel filled when it
/// returned `value`.
pub open spec fn filled(value: i32, len: nat) -> nat {
    if value < 0 {
        0
    } else if value <= len {
        value as nat
    } else {
        len
    }
}

/// The kernel is always told of at least one entry and never of more than
/// the array holds. While the count fits the kernel's width it is the
/// number of watched descriptors, and one where nothing is watched.
pub proof fn law_max_events(len: nat)
    ensures
        1 <= max_events(len) <= capacity(len),
        len <= capacity(len),
        len == 0 ==> capacity(len) == 1 && max_events(len) == 1,
        1 <= len <= i32::MAX ==> capacity(len) == len && max_events(len) == len,
{
}

/// A multiplexer that watches nothing can wait all the same: the wait asks
/// the kernel for one entry, and a kernel that reports nothing ready on
/// it, which is what it does when the time runs out, fills none.
pub proof fn law_empty_wait<C>(v: PollerView<C>, timeout_ms: i32, len: nat)
    requires
        v.watches.len() == 0,
    ensures
        v.wait_request(timeout_ms) == (Request::Wait {
            epoll_fd: v.handle,
            capacity: 1,
            max_events: 1,
            timeout_ms,
        }),
        filled(0, len) == 0,
{
}

/// An operation whose kernel call failed returns the error of that call
/// and leaves the multiplexer as it was: the registry never holds what the
/// kernel refused, and never drops what the kernel still watches.
pub proof fn law_failure_changes_nothing<C>(
    v: PollerView<C>,
    fd: i32,
    interest: Events,
    context: Option<C>,
    reply: Reply,
)
    requires
        reply.value < 0,
    ensures
        status(reply) == Err::<(), SysError>(SysError(reply.errno)),
        v.after_add(fd, interest, context, reply) == v,
        v.remove_outcome(fd, reply) is Err,
        v.after_remove(fd, reply) == v,
{
}

/// An operation whose kernel call succeeded changes the entry of its
/// descriptor and no other: after an addition the descriptor is watched
/// with the interest and the context given, after a removal it is not
/// watched.
pub proof fn law_success_changes_one_entry<C>(
    v: PollerView<C>,
    fd: i32,
    interest: Events,
    context: Option<C>,
    reply: Reply,
    other: i32,
)
    requires
        reply.value >= 0,
        other != fd,
    ensures
        ({
            let added = v.after_add(fd, interest, context, reply);
            let removed = v.after_remove(fd, reply);
            &&& added.handle == v.handle
            &&& added.watches.contains_key(fd)
            &&& added.watches[fd] == (interest, context)
            &&& added.context(fd) == context
            &&& added.watches.contains_key(other) == v.watches.contains_key(other)
            &&& added.context(other) == v.context(other)
            &&& removed.handle == v.handle
            &&& !removed.watches.contains_key(fd)
            &&& removed.watches.contains_key(other) == v.watches.contains_key(other)
            &&& removed.context(other) == v.context(other)
        }),
{
}

/// A descriptor that is added and then removed, the kernel agreeing to
/// both, is no longer watched afterwards: both operations succeed, and a
/// further removal is refused with "no such entry", without a call to the
/// kernel and without a change, whatever the kernel would have said.
pub proof fn law_add_then_remove<C>(
    v: PollerView<C>,
    fd: i32,
    interest: Events,
    context: Option<C>,
    added: Reply,
    removed: Reply,
    again: Reply,
)
    requires
        added.value >= 0,
        removed.value >= 0,
    ensures
        ({
            let a = v.after_add(fd, interest, context, added);
            let b = a.after_remove(fd, removed);
            &&& status(added) == Ok::<(), SysError>(())
            &&& a.remove_request(fd) is Ok
            &&& a.remove_outcome(fd, removed) == Ok::<(), SysError>(())
            &&& !b.watches.contains_key(fd)
            &&& b.remove_request(fd) == Err::<Request, SysError>(SysError(no_entry()))
            &&& b.remove_outcome(fd, again) == Err::<(), SysError>(SysError(no_entry()))
            &&& b.after_remove(fd, again) == b
        }),
{
}

/// Rounds of adding a descriptor and removing it again, the kernel agreeing
/// to each call, all succeed, each on its own, and leave no trace: after
/// any number of them the multiplexer is as it was before the first, but
/// for the descriptor itself, which is not watched. Where it was not
/// watched before, nothing has changed at all.
pub proof fn law_cycles<C>(
    v: PollerView<C>,
    fd: i32,
    interest: Events,
    context: Option<C>,
    replies: Seq<(Reply, Reply)>,
)
    requires
        forall|i: int|
            0 <= i < replies.len() ==> (#[trigger] replies[i]).0.value >= 0 && replies[i].1.value
                >= 0,
    ensures
        v.cycled(fd, interest, context, replies).handle == v.handle,
        replies.len() > 0 ==> v.cycled(fd, interest, context, replies).watches
            == v.watches.remove(fd),
        !v.watches.contains_key(fd) ==> v.cycled(fd, interest, context, replies) == v,
        forall|i: int|
            0 <= i < replies.len() ==> {
                let before = v.cycled(fd, interest, context, replies.take(i));
                let between = before.after_add(fd, interest, context, (#[trigger] replies[i]).0);
                &&& status(replies[i].0) == Ok::<(), SysError>(())
                &&& between.remove_outcome(fd, replies[i].1) == Ok::<(), SysError>(())
            },
    decreases replies.len(),
{
    if replies.len() > 0 {
        let front = replies.drop_last();
        law_cycles(v, fd, interest, context, front);
        let before = v.cycled(fd, interest, context, front);
        let between = before.after_add(fd, interest, context, replies.last().0);
        assert(between.after_remove(fd, replies.last().1).watches =~= v.watches.remove(fd));
        if !v.watches.contains_key(fd) {
            assert(v.watches.remove(fd) =~= v.watches);
        }
        assert forall|i: int| 0 <= i < replies.len() implies {
            let before = v.cycled(fd, interest, context, replies.take(i));
            let between = before.after_add(fd, interest, context, (#[trigger] replies[i]).0);
            &&& status(replies[i].0) == Ok::<(), SysError>(())
            &&& between.remove_outcome(fd, replies[i].1) == Ok::<(), SysError>(())
        } by {
            if i < replies.len() - 1 {
                assert(replies.take(i) =~= front.take(i));
                assert(replies[i] == front[i]);
            } else {
                assert(replies.take(i) =~= front);
            }
        }
    }
}

/// A watched descriptor comes back from a wait as it went in. For an entry
/// that carries the word that `fd` was registered with, what is delivered
/// names `fd`, holds those of `Read`, `Write` and `Error` whose bits the
/// kernel set in the entry, and brings the context of the registration.
pub proof fn law_delivery<'a, C>(
    v: PollerView<C>,
    fd: i32,
    interest: Events,
    context: Option<C>,
    reply: Reply,
    seen: u32,
    item: EventData<'a, C>,
)
    requires
        reply.value >= 0,
        v.after_add(fd, interest, context, reply).delivers(
            RawEvent { events: seen, data: data_of(fd) },
            item,
        ),
    ensures
        item.0 == fd,
        item.1@.contains(Event::Read) <==> seen & readable() == readable(),
        item.1@.contains(Event::Write) <==> seen & writable() == writable(),
        item.1@.contains(Event::Error) <==> seen & errored() == errored(),
        item.1@.subset_of(carried()),
        match item.2 {
            Some(c) => context == Some(*c),
            None => context is None,
        },
{
    law_data_round_trip(fd);
}

/// A multiplexer gives up its kernel handle once: closing one that has a
/// handle asks for the release of that handle, and closing it again asks
/// for nothing.
pub proof fn law_close_once<C>(v: PollerView<C>)
    ensures
        v.handle >= 0 ==> v.close_request() == Some(Request::Close { fd: v.handle }),
        v.handle < 0 ==> v.close_request() is None,
        PollerView::<C>::shut().close_request() is None,
        PollerView::<C>::shut().watches.len() == 0,
{
}

impl<C> Default for Poller<C> {
    /// A multiplexer without a kernel handle that watches nothing.
    fn default() -> (r: Poller<C>)
        ensures
            r@ == PollerView::<C>::shut(),
    {
        Poller { epoll_fd: -1, watches: HashMap::new() }
    }
}

impl<C> Poller<C> {
    /// Settles construction. `reply` is what `epoll_create1` left behind:
    /// a multiplexer on the handle that it returned, watching nothing, or
    /// the error of the failed call.
    pub fn new(reply: Reply) -> (r: Result<Poller<C>, SysError>)
        ensures
            match reply.outcome() {
                Ok(handle) => r is Ok && r->Ok_0@ == PollerView::<C>::opened(handle),
                Err(error) => r is Err && r->Err_0 == error,
            },
    {
        match reply.check() {
            Ok(handle) => Ok(Poller { epoll_fd: handle, watches: HashMap::new() }),
            Err(error) => Err(error),
        }
    }

    /// The kernel handle, or a negative number where there is none.
    pub fn handle(&self) -> (r: i32)
        ensures
            r == self@.handle,
    {
        self.epoll_fd
    }

    /// The number of watched descriptors.
    pub fn len(&self) -> (r: usize)
        ensures
            r == self@.watches.len(),
    {
        self.watches.len()
    }

    /// Whether `fd` is watched.
    pub fn is_watching(&self, fd: i32) -> (r: bool)
        ensures
            r == self@.watches.contains_key(fd),
    {
        self.watches.contains_key(&fd)
    }

    /// The call that registers `fd` for the conditions in `events`.
    pub fn add_request(&self, fd: i32, events: Events) -> (r: Request)
        ensures
            r == self@.add_request(fd, events),
    {
        let raw = RawEvent { events: u32::from(events), data: #[verifier::truncate] (fd as u64) };
        Request::Control { epoll_fd: self.epoll_fd, op: epoll_ctl_add(), fd, event: Some(raw) }
    }

    /// Settles the registration of `fd`. `reply` is what `epoll_ctl` left
    /// behind.
    ///
    /// Where the call failed, its error is returned and nothing changes.
    /// Where it succeeded, `fd` is watched from now on, with this interest
    /// and this context.
    pub fn add(&mut self, fd: i32, events: Events, ctx: Option<C>, reply: Reply) -> (r: Result<
        (),
        SysError,
    >)
        ensures
            r == status(reply),
            final(self)@ == old(self)@.after_add(fd, events, ctx, reply),
    {
        match reply.check() {
            Ok(_) => {
                self.watches.insert(fd, (events, ctx));
                Ok(())
            },
            Err(error) => Err(error),
        }
    }

    /// The call that takes `fd` out, or the "no such entry" error where
    /// `fd` is not watched: then there is nothing to ask the kernel.
    pub fn remove_request(&self, fd: i32) -> (r: Result<Request, SysError>)
        ensures
            r == self@.remove_request(fd),
    {
        if !self.watches.contains_key(&fd) {
            return Err(SysError(enoent()));
        }
        Ok(Request::Control { epoll_fd: self.epoll_fd, op: epoll_ctl_del(), fd, event: None })
    }

    /// Settles the removal of `fd`. `reply` is what `epoll_ctl` left
    /// behind.
    ///
    /// A descriptor that is not watched gives the "no such entry" error,
    /// whatever the reply. Where the call failed, its error is returned
    /// and the entry stays. Where it succeeded, the entry is gone.
    pub fn remove(&mut self, fd: i32, reply: Reply) -> (r: Result<(), SysError>)
        ensures
            r == old(self)@.remove_outcome(fd, reply),
            final(self)@ == old(self)@.after_remove(fd, reply),
    {
        if !self.watches.contains_key(&fd) {
            return Err(SysError(enoent()));
        }
        match reply.check() {
            Ok(_) => {
                self.watches.remove(&fd);
                Ok(())
            },
            Err(error) => Err(error),
        }
    }

    /// The call that waits up to `timeout_ms` milliseconds for readiness
    /// on what is watched: zero returns at once, a negative number waits
    /// without limit. The kernel gets room for one entry for each watched
    /// descriptor, and for one entry where nothing is watched, so that a
    /// wait on an empty multiplexer runs out of time like any other.
    pub fn wait_request(&self, timeout_ms: i32) -> (r: Request)
        ensures
            r == self@.wait_request(timeout_ms),
    {
        let len = self.watches.len();
        let capacity: usize = if len == 0 {
            1
        } else {
            len
        };
        let max_events: i32 = if capacity <= 0x7fff_ffff {
            capacity as i32
        } else {
            i32::MAX
        };
        Request::Wait { epoll_fd: self.epoll_fd, capacity, max_events, timeout_ms }
    }

    /// Gives up the kernel handle and everything that is watched through
    /// it. The result is the call that releases the handle; there is none
    /// where the multiplexer has no handle, so a second call asks for
    /// nothing.
    pub fn close(&mut self) -> (r: Option<Request>)
        ensures
            r == old(self)@.close_request(),
            final(self)@ == PollerView::<C>::shut(),
    {
        let r = if self.epoll_fd >= 0 {
            Some(Request::Close { fd: self.epoll_fd })
        } else {
            None
        };
        self.epoll_fd = -1;
        self.watches.clear();
        r
    }

    /// Settles a wait. `reply` is what `epoll_wait` left behind and
    /// `ready` the array that it was given to fill.
    ///
    /// A failed wait gives the error. Otherwise one tuple is delivered
    /// for each entry that the kernel filled, in the kernel's order; a
    /// wait that ran out of time filled none, and gives an empty sequence.
    pub fn pull_events<'a>(&'a self, reply: Reply, ready: &Vec<RawEvent>) -> (r: Result<
        Vec<EventData<'a, C>>,
        SysError,
    >)
        ensures
            match r {
                Ok(items) => {
                    &&& reply.value >= 0
                    &&& items@.len() == filled(reply.value, ready@.len())
                    &&& forall|i: int|
                        0 <= i < items@.len() ==> self@.delivers(#[trigger] ready@[i], items@[i])
                },
                Err(error) => reply.value < 0 && error == SysError(reply.errno),
            },
            reply.value == 0 ==> r is Ok && r->Ok_0@.len() == 0,
    {
        let filled: i32 = match reply.check() {
            Ok(value) => value,
            Err(error) => {
                return Err(error);
            },
        };
        let count: usize = if filled as usize <= ready.len() {
            filled as usize
        } else {
            ready.len()
        };
        let mut out: Vec<EventData<'a, C>> = Vec::with_capacity(count);
        let mut i: usize = 0;
        while i < count
            invariant
                i <= count <= ready@.len(),
                out@.len() == i,
                forall|j: int| 0 <= j < i ==> self@.delivers(#[trigger] ready@[j], out@[j]),
            decreases count - i,
        {
            let raw = ready[i];
            let fd = #[verifier::truncate] (raw.data as i32);
            let events = Events::from(raw.events);
            out.push((fd, events, lookup(&self.watches, fd)));
            i += 1;
        }
        Ok(out)
    }
}

} // verus!
