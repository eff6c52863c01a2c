//! The fallback multiplexer, over `select`.
//!
//! `select` keeps nothing between calls. What is watched lives in the
//! registry alone: adding and removing a descriptor asks nothing of the
//! kernel, every wait hands it the whole watched set as three sets of
//! descriptors, and what became ready is read back out of the three sets
//! that the kernel leaves behind.

use crate::error::{Reply, SysError};
use crate::events::{Event, Events};
use crate::fdset::FdSet;
use crate::mask::carried;
use crate::registry::{carries, lookup, EventData};
use crate::sys::{
    bad_descriptor, ebadf, eexist, einval, enoent, exists_already, fd_setsize, invalid, no_entry,
    set_size,
};
use std::collections::HashMap;
use vstd::prelude::*;

verus! {

/// The longest that a wait may take.
#[derive(Clone, Copy, Debug, PartialEq, Eq, Structural)]
pub struct Timeval {
    pub seconds: i64,
    pub micros: i64,
}

/// A time limit in milliseconds as `select` takes it: none for a negative
/// number, which waits without limit, else seconds and microseconds.
pub open spec fn timeval_of(timeout_ms: i32) -> Option<Timeval> {
    if timeout_ms < 0 {
        None
    } else {
        Some(
            Timeval {
                seconds: (timeout_ms / 1000) as i64,
                micros: ((timeout_ms % 1000) * 1000) as i64,
            },
        )
    }
}

/// One call of `select`: the three sets to watch for reading, for writing
/// and for errors, the number below which their descriptors lie, and the
/// time limit.
#[derive(Clone, Copy, Debug, PartialEq, Eq)]
pub struct Call {
    pub nfds: i32,
    pub read: FdSet,
    pub write: FdSet,
    pub error: FdSet,
    pub timeout: Option<Timeval>,
}

/// Whether every watched descriptor is one that a set of `select` can hold.
pub open spec fn in_range<C>(watches: Map<i32, (Events, Option<C>)>) -> bool {
    forall|fd: i32| watches.contains_key(fd) ==> 0 <= fd < set_size()
}

/// What adding `fd` returns: a descriptor that is negative, one that is too
/// large for a set, and one that is watched already are refused, each with
/// an error code of its own.
pub open spec fn add_outcome<C>(watches: Map<i32, (Events, Option<C>)>, fd: i32) -> Result<
    (),
    SysError,
> {
    if fd < 0 {
        Err(SysError(bad_descriptor()))
    } else if fd >= set_size() {
        Err(SysError(invalid()))
    } else if watches.contains_key(fd) {
        Err(SysError(exists_already()))
    } else {
        Ok(())
    }
}

/// The registry after an attempt to add `fd`: with the new entry where the
/// descriptor was accepted, else unchanged.
pub open spec fn after_add<C>(
    watches: Map<i32, (Events, Option<C>)>,
    fd: i32,
    interest: Events,
    context: Option<C>,
) -> Map<i32, (Events, Option<C>)> {
    if add_outcome(watches, fd) is Ok {
        watches.insert(fd, (interest, context))
    } else {
        watches
    }
}

/// What removing `fd` returns: success for a watched descriptor, else the
/// "no such entry" error.
pub open spec fn remove_outcome<C>(watches: Map<i32, (Events, Option<C>)>, fd: i32) -> Result<
    (),
    SysError,
> {
    if watches.contains_key(fd) {
        Ok(())
    } else {
        Err(SysError(no_entry()))
    }
}

/// The descriptors that are watched for the condition `e`.
pub open spec fn wanted<C>(watches: Map<i32, (Events, Option<C>)>, e: Event) -> Set<i32> {
    Set::new(
        |fd: i32| 0 <= fd < set_size() && watches.contains_key(fd) && watches[fd].0@.contains(e),
    )
}

/// Whether `nfds` is the number that `select` is told for the watched
/// descriptors: one more than the largest of them, or zero where nothing
/// is watched.
pub open spec fn spans<C>(watches: Map<i32, (Events, Option<C>)>, nfds: int) -> bool {
    &&& 0 <= nfds <= set_size()
    &&& forall|fd: i32| 0 <= fd < set_size() && watches.contains_key(fd) ==> fd < nfds
    &&& nfds > 0 ==> watches.contains_key((nfds - 1) as i32)
}

/// The conditions that the kernel reported for `fd` in the three sets that
/// it left behind.
pub open spec fn seen(fd: i32, read: Set<i32>, write: Set<i32>, error: Set<i32>) -> Set<Event> {
    Set::new(
        |e: Event|
            match e {
                Event::Read => read.contains(fd),
                Event::Write => write.contains(fd),
                Event::Error => error.contains(fd),
                _ => false,
            },
    )
}

/// What the three sets report for the watched descriptors below `upto`,
/// in ascending order: for each watched descriptor that is in one of the
/// sets, the descriptor, the conditions seen on it, and its context.
pub open spec fn scan<C>(
    watches: Map<i32, (Events, Option<C>)>,
    read: Set<i32>,
    write: Set<i32>,
    error: Set<i32>,
    upto: int,
) -> Seq<(i32, Set<Event>, Option<C>)>
    decreases upto,
{
    if upto <= 0 {
        Seq::empty()
    } else {
        let rest = scan(watches, read, write, error, upto - 1);
        let fd = (upto - 1) as i32;
        let events = seen(fd, read, write, error);
        if watches.contains_key(fd) && !events.is_empty() {
            rest.push((fd, events, watches[fd].1))
        } else {
            rest
        }
    }
}

/// Whether `items` is what is delivered for the reports `expected`: one
/// tuple for each report, in the same order.
pub open spec fn delivered<C>(
    items: Seq<EventData<C>>,
    expected: Seq<(i32, Set<Event>, Option<C>)>,
) -> bool {
    &&& items.len() == expected.len()
    &&& forall|i: int|
        0 <= i < items.len() ==> carries(
            #[trigger] items[i],
            expected[i].0,
            expected[i].1,
            expected[i].2,
        )
}

/// The registry after `fd` was added and removed again `rounds` times.
pub open spec fn cycled<C>(
    watches: Map<i32, (Events, Option<C>)>,
    fd: i32,
    interest: Events,
    context: Option<C>,
    rounds: nat,
) -> Map<i32, (Events, Option<C>)>
    decreases rounds,
{
    if rounds == 0 {
        watches
    } else {
        let before = cycled(watches, fd, interest, context, (rounds - 1) as nat);
        after_add(before, fd, interest, context).remove(fd)
    }
}

/// Whatever is added or removed, the registry holds only descriptors that
/// a set of `select` can hold.
pub proof fn law_in_range<C>(
    watches: Map<i32, (Events, Option<C>)>,
    fd: i32,
    interest: Events,
    context: Option<C>,
)
    requires
        in_range(watches),
    ensures
        in_range(Map::<i32, (Events, Option<C>)>::empty()),
        in_range(after_add(watches, fd, interest, context)),
        in_range(watches.remove(fd)),
{
}

/// An operation that is refused changes nothing.
pub proof fn law_refusal_changes_nothing<C>(
    watches: Map<i32, (Events, Option<C>)>,
    fd: i32,
    interest: Events,
    context: Option<C>,
)
    ensures
        add_outcome(watches, fd) is Err ==> after_add(watches, fd, interest, context) == watches,
        remove_outcome(watches, fd) is Err ==> watches.remove(fd) == watches,
{
    if remove_outcome(watches, fd) is Err {
        assert(watches.remove(fd) =~= watches);
    }
}

/// A descriptor in range that is not watched can be added and then
/// removed: both succeed, the registry is afterwards as it was before, and
/// a further removal is refused with "no such entry".
pub proof fn law_add_then_remove<C>(
    watches: Map<i32, (Events, Option<C>)>,
    fd: i32,
    interest: Events,
    context: Option<C>,
)
    requires
        0 <= fd < set_size(),
        !watches.contains_key(fd),
    ensures
        ({
            let added = after_add(watches, fd, interest, context);
            let removed = added.remove(fd);
            &&& add_outcome(watches, fd) == Ok::<(), SysError>(())
            &&& added.contains_key(fd)
            &&& added[fd] == (interest, context)
            &&& add_outcome(added, fd) == Err::<(), SysError>(SysError(exists_already()))
            &&& remove_outcome(added, fd) == Ok::<(), SysError>(())
            &&& removed == watches
            &&& remove_outcome(removed, fd) == Err::<(), SysError>(SysError(no_entry()))
        }),
{
    assert(after_add(watches, fd, interest, context).remove(fd) =~= watches);
}

/// Any number of rounds of adding and removing a descriptor in range that
/// is not watched leaves the registry as it was, and each round succeeds
/// on its own.
pub proof fn law_cycles<C>(
    watches: Map<i32, (Events, Option<C>)>,
    fd: i32,
    interest: Events,
    context: Option<C>,
    rounds: nat,
)
    requires
        0 <= fd < set_size(),
        !watches.contains_key(fd),
    ensures
        cycled(watches, fd, interest, context, rounds) == watches,
        forall|n: nat|
            n < rounds ==> {
                let before = #[trigger] cycled(watches, fd, interest, context, n);
                &&& add_outcome(before, fd) == Ok::<(), SysError>(())
                &&& remove_outcome(after_add(before, fd, interest, context), fd) == Ok::<
                    (),
                    SysError,
                >(())
            },
    decreases rounds,
{
    if rounds > 0 {
        law_cycles(watches, fd, interest, context, (rounds - 1) as nat);
        law_add_then_remove(watches, fd, interest, context);
    }
}

/// There is one number that `select` can be told for a registry.
pub proof fn law_spans_unique<C>(watches: Map<i32, (Events, Option<C>)>, a: int, b: int)
    requires
        spans(watches, a),
        spans(watches, b),
    ensures
        a == b,
{
    if a > 0 {
        assert(watches.contains_key((a - 1) as i32));
    }
    if b > 0 {
        assert(watches.contains_key((b - 1) as i32));
    }
}

/// A watched descriptor goes into the three sets and comes back out of
/// them with `Read`, `Write` and `Error` exactly as its interest held
/// them, and with nothing else.
pub proof fn law_round_trip<C>(watches: Map<i32, (Events, Option<C>)>, fd: i32)
    requires
        0 <= fd < set_size(),
        watches.contains_key(fd),
    ensures
        seen(
            fd,
            wanted(watches, Event::Read),
            wanted(watches, Event::Write),
            wanted(watches, Event::Error),
        ) == watches[fd].0@.intersect(carried()),
{
    assert(seen(
        fd,
        wanted(watches, Event::Read),
        wanted(watches, Event::Write),
        wanted(watches, Event::Error),
    ) =~= watches[fd].0@.intersect(carried()));
}

/// What a scan reports: each report is a watched descriptor below `upto`
/// with the conditions seen on it, which are some, and its context; the
/// descriptors ascend; and every watched descriptor below `upto` on which
/// something was seen is reported.
pub proof fn law_scan<C>(
    watches: Map<i32, (Events, Option<C>)>,
    read: Set<i32>,
    write: Set<i32>,
    error: Set<i32>,
    upto: int,
)
    requires
        0 <= upto <= set_size(),
    ensures
        ({
            let reports = scan(watches, read, write, error, upto);
            &&& reports.len() <= upto
            &&& forall|i: int|
                0 <= i < reports.len() ==> {
                    let fd = (#[trigger] reports[i]).0;
                    &&& 0 <= fd < upto
                    &&& watches.contains_key(fd)
                    &&& reports[i].1 == seen(fd, read, write, error)
                    &&& !reports[i].1.is_empty()
                    &&& reports[i].2 == watches[fd].1
                }
            &&& forall|i: int, j: int|
                0 <= i < j < reports.len() ==> (#[trigger] reports[i]).0 < (#[trigger] reports[j]).0
            &&& forall|fd: i32|
                0 <= fd < upto && watches.contains_key(fd) && !(#[trigger] seen(
                    fd,
                    read,
                    write,
                    error,
                )).is_empty() ==> exists|i: int|
                    0 <= i < reports.len() && (#[trigger] reports[i]).0 == fd
        }),
    decreases upto,
{
    if upto > 0 {
        law_scan(watches, read, write, error, upto - 1);
        let rest = scan(watches, read, write, error, upto - 1);
        let reports = scan(watches, read, write, error, upto);
        let last = (upto - 1) as i32;
        assert forall|fd: i32|
            0 <= fd < upto && watches.contains_key(fd) && !(#[trigger] seen(
                fd,
                read,
                write,
                error,
            )).is_empty() implies exists|i: int|
            0 <= i < reports.len() && (#[trigger] reports[i]).0 == fd by {
            if fd == last {
                assert(reports[reports.len() - 1].0 == fd);
            } else {
                let i = choose|i: int| 0 <= i < rest.len() && (#[trigger] rest[i]).0 == fd;
                assert(reports[i].0 == fd);
            }
        }
    }
}

/// A multiplexer over `select`: the registry of what is watched.
#[derive(Debug)]
pub struct Poller<C> {
    watches: HashMap<i32, (Events, Option<C>)>,
}

impl<C> View for Poller<C> {
    type V = Map<i32, (Events, Option<C>)>;

    closed spec fn view(&self) -> Map<i32, (Events, Option<C>)> {
        self.watches@
    }
}

impl<C> Default for Poller<C> {
    /// A multiplexer that watches nothing.
    fn default() -> (r: Poller<C>)
        ensures
            r@ == Map::<i32, (Events, Option<C>)>::empty(),
    {
        Poller { watches: HashMap::new() }
    }
}

impl<C> Poller<C> {
    /// A multiplexer that watches nothing. There is no kernel object to
    /// create, so this cannot fail.
    pub fn new() -> (r: Result<Poller<C>, SysError>)
        ensures
            r is Ok,
            r->Ok_0@ == Map::<i32, (Events, Option<C>)>::empty(),
    {
        Ok(Poller { watches: HashMap::new() })
    }

    /// The number of watched descriptors.
    pub fn len(&self) -> (r: usize)
        ensures
            r == self@.len(),
    {
        self.watches.len()
    }

    /// Whether `fd` is watched.
    pub fn is_watching(&self, fd: i32) -> (r: bool)
        ensures
            r == self@.contains_key(fd),
    {
        self.watches.contains_key(&fd)
    }

    /// Watches `fd` for the conditions in `events` from now on.
    ///
    /// A negative descriptor, one that no set of `select` can hold and one
    /// that is watched already are refused with an error, and nothing
    /// changes.
    pub fn add(&mut self, fd: i32, events: Events, ctx: Option<C>) -> (r: Result<(), SysError>)
        ensures
            r == add_outcome(old(self)@, fd),
            final(self)@ == after_add(old(self)@, fd, events, ctx),
    {
        if fd < 0 {
            return Err(SysError(ebadf()));
        }
        if fd as usize >= fd_setsize() {
            return Err(SysError(einval()));
        }
        if self.watches.contains_key(&fd) {
            return Err(SysError(eexist()));
        }
        self.watches.insert(fd, (events, ctx));
        Ok(())
    }

    /// Stops watching `fd`. A descriptor that is not watched gives the
    /// "no such entry" error.
    pub fn remove(&mut self, fd: i32) -> (r: Result<(), SysError>)
        ensures
            r == remove_outcome(old(self)@, fd),
            final(self)@ == old(self)@.remove(fd),
    {
        if !self.watches.contains_key(&fd) {
            proof {
                assert(self@.remove(fd) =~= self@);
            }
            return Err(SysError(enoent()));
        }
        self.watches.remove(&fd);
        Ok(())
    }

    /// The call that waits up to `timeout_ms` milliseconds for readiness
    /// on what is watched: zero returns at once, a negative number waits
    /// without limit. Each of the three sets holds the descriptors that are
    /// watched for its condition.
    pub fn wait_request(&self, timeout_ms: i32) -> (call: Call)
        ensures
            call.read@ == wanted(self@, Event::Read),
            call.write@ == wanted(self@, Event::Write),
            call.error@ == wanted(self@, Event::Error),
            spans(self@, call.nfds as int),
            call.timeout == timeval_of(timeout_ms),
    {
        let limit: i32 = fd_setsize() as i32;
        let mut read = FdSet::new();
        let mut write = FdSet::new();
        let mut error = FdSet::new();
        let mut nfds: i32 = 0;
        let mut fd: i32 = 0;
        while fd < limit
            invariant
                0 <= fd <= limit == set_size(),
                forall|x: i32|
                    read@.contains(x) <==> x < fd && wanted(self@, Event::Read).contains(x),
                forall|x: i32|
                    write@.contains(x) <==> x < fd && wanted(self@, Event::Write).contains(x),
                forall|x: i32|
                    error@.contains(x) <==> x < fd && wanted(self@, Event::Error).contains(x),
                0 <= nfds <= fd,
                forall|x: i32| 0 <= x < fd && self@.contains_key(x) ==> x < nfds,
                nfds > 0 ==> self@.contains_key((nfds - 1) as i32),
            decreases limit - fd,
        {
            match self.watches.get(&fd) {
                Some(entry) => {
                    nfds = fd + 1;
                    if entry.0.has_read() {
                        read.insert(fd);
                    }
                    if entry.0.has_write() {
                        write.insert(fd);
                    }
                    if entry.0.has_error() {
                        error.insert(fd);
                    }
                },
                None => {},
            }
            fd += 1;
        }
        proof {
            assert(read@ =~= wanted(self@, Event::Read));
            assert(write@ =~= wanted(self@, Event::Write));
            assert(error@ =~= wanted(self@, Event::Error));
        }
        let timeout = if timeout_ms < 0 {
            None
        } else {
            Some(
                Timeval {
                    seconds: (timeout_ms / 1000) as i64,
                    micros: ((timeout_ms % 1000) * 1000) as i64,
                },
            )
        };
        Call { nfds, read, write, error, timeout }
    }

    /// Settles a wait. `reply` is what `select` left behind, and `read`,
    /// `write` and `error` are the three sets as the kernel left them.
    ///
    /// A failed wait gives the error, and one that ran out of time an empty
    /// sequence. Otherwise one tuple is delivered for each watched
    /// descriptor that is in one of the sets, in ascending order of the
    /// descriptors; a watched descriptor that is in none is left out.
    pub fn pull_events<'a>(
        &'a self,
        reply: Reply,
        read: &FdSet,
        write: &FdSet,
        error: &FdSet,
    ) -> (r: Result<Vec<EventData<'a, C>>, SysError>)
        ensures
            match r {
                Ok(items) => {
                    &&& reply.value >= 0
                    &&& reply.value == 0 ==> items@.len() == 0
                    &&& reply.value > 0 ==> delivered(
                        items@,
                        scan(self@, read@, write@, error@, set_size()),
                    )
                },
                Err(failure) => reply.value < 0 && failure == SysError(reply.errno),
            },
    {
        let mut out: Vec<EventData<'a, C>> = Vec::new();
        match reply.check() {
            Ok(ready) => {
                if ready == 0 {
                    return Ok(out);
                }
            },
            Err(failure) => {
                return Err(failure);
            },
        }
        let limit: i32 = fd_setsize() as i32;
        let mut fd: i32 = 0;
        while fd < limit
            invariant
                0 <= fd <= limit == set_size(),
                delivered(out@, scan(self@, read@, write@, error@, fd as int)),
            decreases limit - fd,
        {
            let ghost before = out@;
            let ghost rest = scan(self@, read@, write@, error@, fd as int);
            if self.watches.contains_key(&fd) {
                let mut events = Events::new();
                if read.contains(fd) {
                    events = events.read();
                }
                if write.contains(fd) {
                    events = events.write();
                }
                if error.contains(fd) {
                    events = events.error();
                }
                proof {
                    assert(events@ =~= seen(fd, read@, write@, error@));
                }
                if !events.is_none() {
                    out.push((fd, events, lookup(&self.watches, fd)));
                    proof {
                        let expected = scan(self@, read@, write@, error@, fd + 1);
                        assert(expected == rest.push((fd, events@, self@[fd].1)));
                        assert forall|i: int| 0 <= i < out@.len() implies carries(
                            #[trigger] out@[i],
                            expected[i].0,
                            expected[i].1,
                            expected[i].2,
                        ) by {
                            if i < before.len() {
                                assert(out@[i] == before[i]);
                                assert(expected[i] == rest[i]);
                            }
                        }
                    }
                }
            }
            fd += 1;
        }
        Ok(out)
    }
}

} // verus!
