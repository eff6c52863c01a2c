use poller::select::{Call, Poller, Timeval};
use poller::{Events, FdSet, Reply, SysError};
use std::sync::Arc;

fn set_of(fds: &[i32]) -> FdSet {
    let mut set = FdSet::new();
    for fd in fds {
        assert!(set.insert(*fd));
    }
    set
}

fn fresh<C>() -> Poller<C> {
    match Poller::new() {
        Ok(poller) => poller,
        Err(error) => panic!("construction failed: {}", error.to_string()),
    }
}

/// A stand-in for the kernel: every descriptor that is asked about for
/// reading is readable, and nothing else is ready.
fn all_readable(call: &Call) -> (Reply, FdSet, FdSet, FdSet) {
    let mut count = 0;
    for fd in 0..call.nfds {
        if call.read.contains(fd) {
            count += 1;
        }
    }
    (Reply { value: count, errno: 0 }, call.read, FdSet::new(), FdSet::new())
}

#[test]
fn select_construction_cannot_fail() {
    let poller: Poller<u8> = Poller::new().unwrap();
    assert_eq!(poller.len(), 0);
    let other: Poller<u8> = Poller::default();
    assert_eq!(other.len(), 0);
    assert!(!other.is_watching(0));
}

#[test]
fn select_add_records_a_descriptor_in_range() {
    let mut poller: Poller<u8> = fresh();
    assert_eq!(poller.add(0, Events::new().read(), None), Ok(()));
    assert_eq!(poller.add(1023, Events::new().write(), Some(1)), Ok(()));
    assert!(poller.is_watching(0));
    assert!(poller.is_watching(1023));
    assert!(!poller.is_watching(1));
    assert_eq!(poller.len(), 2);
}

#[test]
fn select_add_rejects_a_descriptor_beyond_the_limit() {
    let mut poller: Poller<u8> = fresh();
    assert_eq!(poller.add(1024, Events::new().read(), None), Err(SysError::from(22)));
    assert_eq!(poller.add(5000, Events::new().read(), None), Err(SysError::from(22)));
    assert_eq!(poller.add(i32::MAX, Events::new().read(), None), Err(SysError::from(22)));
    assert_eq!(poller.len(), 0);
    assert!(!poller.is_watching(1024));
}

#[test]
fn select_add_rejects_a_negative_descriptor() {
    let mut poller: Poller<u8> = fresh();
    assert_eq!(poller.add(-1, Events::new().read(), None), Err(SysError::from(9)));
    assert_eq!(poller.add(i32::MIN, Events::new().read(), None), Err(SysError::from(9)));
    assert_eq!(poller.len(), 0);
}

#[test]
fn select_add_rejects_a_duplicate_and_keeps_the_first() {
    let mut poller: Poller<u8> = fresh();
    assert_eq!(poller.add(4, Events::new().read(), Some(1)), Ok(()));
    assert_eq!(poller.add(4, Events::new().write(), Some(2)), Err(SysError::from(17)));
    assert_eq!(poller.len(), 1);
    let call = poller.wait_request(0);
    assert!(call.read.contains(4));
    assert!(!call.write.contains(4));
    let got = poller
        .pull_events(Reply { value: 1, errno: 0 }, &set_of(&[4]), &FdSet::new(), &FdSet::new())
        .unwrap();
    assert_eq!(got, vec![(4, Events::new().read(), Some(&1))]);
}

#[test]
fn select_remove_of_an_unknown_descriptor_fails() {
    let mut poller: Poller<u8> = fresh();
    assert_eq!(poller.remove(4), Err(SysError::from(2)));
    assert_eq!(poller.add(4, Events::new().read(), None), Ok(()));
    assert_eq!(poller.remove(5), Err(SysError::from(2)));
    assert_eq!(poller.len(), 1);
}

#[test]
fn select_add_then_remove_leaves_nothing_and_a_second_remove_fails() {
    let mut poller: Poller<u8> = fresh();
    assert_eq!(poller.add(4, Events::new().read(), Some(9)), Ok(()));
    assert_eq!(poller.remove(4), Ok(()));
    assert!(!poller.is_watching(4));
    assert_eq!(poller.len(), 0);
    assert_eq!(poller.remove(4), Err(SysError::from(2)));
}

#[test]
fn select_a_thousand_cycles_each_succeed() {
    let mut poller: Poller<u32> = fresh();
    assert_eq!(poller.add(1, Events::new().write(), None), Ok(()));
    for round in 0..1000u32 {
        assert_eq!(poller.add(7, Events::new().read(), Some(round)), Ok(()));
        assert_eq!(poller.len(), 2);
        assert_eq!(poller.remove(7), Ok(()));
        assert_eq!(poller.len(), 1);
    }
    assert!(poller.is_watching(1));
    assert!(!poller.is_watching(7));
}

#[test]
fn select_the_call_holds_each_descriptor_in_the_sets_of_its_interest() {
    let mut poller: Poller<u8> = fresh();
    assert_eq!(poller.add(3, Events::new().read(), None), Ok(()));
    assert_eq!(poller.add(70, Events::new().write().error(), None), Ok(()));
    assert_eq!(poller.add(9, Events::new().read().write().error(), None), Ok(()));
    assert_eq!(poller.add(20, Events::new(), None), Ok(()));
    let call = poller.wait_request(250);
    assert_eq!(call.read, set_of(&[3, 9]));
    assert_eq!(call.write, set_of(&[9, 70]));
    assert_eq!(call.error, set_of(&[9, 70]));
    assert_eq!(call.nfds, 71);
    assert_eq!(call.timeout, Some(Timeval { seconds: 0, micros: 250_000 }));
}

#[test]
fn select_the_call_spans_one_more_than_the_largest_descriptor() {
    let mut poller: Poller<u8> = fresh();
    assert_eq!(poller.wait_request(0).nfds, 0);
    assert_eq!(poller.add(0, Events::new().read(), None), Ok(()));
    assert_eq!(poller.wait_request(0).nfds, 1);
    assert_eq!(poller.add(1023, Events::new().read(), None), Ok(()));
    assert_eq!(poller.wait_request(0).nfds, 1024);
    assert_eq!(poller.remove(1023), Ok(()));
    assert_eq!(poller.wait_request(0).nfds, 1);
    assert_eq!(poller.add(500, Events::new(), None), Ok(()));
    assert_eq!(poller.wait_request(0).nfds, 501);
}

#[test]
fn select_an_empty_registry_asks_with_empty_sets() {
    let poller: Poller<u8> = fresh();
    let call = poller.wait_request(-1);
    assert_eq!(
        call,
        Call {
            nfds: 0,
            read: FdSet::new(),
            write: FdSet::new(),
            error: FdSet::new(),
            timeout: None,
        }
    );
}

#[test]
fn select_the_time_limit_is_split_into_seconds_and_microseconds() {
    let poller: Poller<u8> = fresh();
    assert_eq!(poller.wait_request(0).timeout, Some(Timeval { seconds: 0, micros: 0 }));
    assert_eq!(poller.wait_request(1).timeout, Some(Timeval { seconds: 0, micros: 1000 }));
    assert_eq!(poller.wait_request(999).timeout, Some(Timeval { seconds: 0, micros: 999_000 }));
    assert_eq!(poller.wait_request(1000).timeout, Some(Timeval { seconds: 1, micros: 0 }));
    assert_eq!(poller.wait_request(1500).timeout, Some(Timeval { seconds: 1, micros: 500_000 }));
    assert_eq!(
        poller.wait_request(i32::MAX).timeout,
        Some(Timeval { seconds: 2_147_483, micros: 647_000 })
    );
    assert_eq!(poller.wait_request(-1).timeout, None);
    assert_eq!(poller.wait_request(i32::MIN).timeout, None);
}

#[test]
fn select_a_failed_wait_gives_the_error_of_the_kernel() {
    let mut poller: Poller<u8> = fresh();
    assert_eq!(poller.add(4, Events::new().read(), None), Ok(()));
    let sets = set_of(&[4]);
    assert_eq!(
        poller.pull_events(Reply { value: -1, errno: 4 }, &sets, &sets, &sets),
        Err(SysError::from(4))
    );
}

#[test]
fn select_a_wait_that_timed_out_gives_an_empty_sequence() {
    let mut poller: Poller<u8> = fresh();
    assert_eq!(poller.add(4, Events::new().read(), None), Ok(()));
    let none = FdSet::new();
    let got = poller.pull_events(Reply { value: 0, errno: 0 }, &none, &none, &none).unwrap();
    assert!(got.is_empty());
    let stale = set_of(&[4]);
    let got = poller.pull_events(Reply { value: 0, errno: 0 }, &stale, &none, &none).unwrap();
    assert!(got.is_empty());
}

#[test]
fn select_ready_descriptors_come_in_ascending_order_with_what_was_seen() {
    let mut poller: Poller<&str> = fresh();
    assert_eq!(poller.add(9, Events::new().read().write(), Some("nine")), Ok(()));
    assert_eq!(poller.add(3, Events::new().read(), Some("three")), Ok(()));
    assert_eq!(poller.add(700, Events::new().write().error(), None), Ok(()));
    assert_eq!(poller.add(5, Events::new().read(), Some("five")), Ok(()));
    let got = poller
        .pull_events(
            Reply { value: 4, errno: 0 },
            &set_of(&[3, 9]),
            &set_of(&[9, 700]),
            &set_of(&[700]),
        )
        .unwrap();
    assert_eq!(
        got,
        vec![
            (3, Events::new().read(), Some(&"three")),
            (9, Events::new().read().write(), Some(&"nine")),
            (700, Events::new().write().error(), None),
        ]
    );
}

#[test]
fn select_a_descriptor_that_is_not_watched_is_not_delivered() {
    let mut poller: Poller<u8> = fresh();
    assert_eq!(poller.add(3, Events::new().read(), Some(1)), Ok(()));
    let got = poller
        .pull_events(Reply { value: 2, errno: 0 }, &set_of(&[3, 8]), &set_of(&[8]), &FdSet::new())
        .unwrap();
    assert_eq!(got, vec![(3, Events::new().read(), Some(&1))]);
}

#[test]
fn select_a_ready_descriptor_gives_one_tuple_on_every_wait() {
    let mut poller: Poller<u8> = fresh();
    assert_eq!(poller.add(6, Events::new().read(), None), Ok(()));
    assert_eq!(poller.add(8, Events::new().write(), None), Ok(()));
    let mut seen = 0;
    for _ in 0..50 {
        let call = poller.wait_request(1000);
        let (reply, read, write, error) = all_readable(&call);
        let got = poller.pull_events(reply, &read, &write, &error).unwrap();
        assert_eq!(got.len(), 1);
        assert_eq!(got[0].0, 6);
        assert!(got[0].1.has_read());
        assert_eq!(got[0].2, None);
        seen += got.len();
    }
    assert_eq!(seen, 50);
}

#[test]
fn select_the_context_of_the_registration_comes_back_with_the_event() {
    let context = Arc::new(String::from("console"));
    let mut poller: Poller<Arc<String>> = fresh();
    assert_eq!(poller.add(10, Events::new().read(), Some(context.clone())), Ok(()));
    assert_eq!(Arc::strong_count(&context), 2);
    let call = poller.wait_request(1000);
    let (reply, read, write, error) = all_readable(&call);
    let got = poller.pull_events(reply, &read, &write, &error).unwrap();
    assert_eq!(got.len(), 1);
    assert_eq!(got[0].0, 10);
    assert_eq!(got[0].1, Events::new().read());
    match got[0].2 {
        Some(handed) => assert!(Arc::ptr_eq(handed, &context)),
        None => panic!("the context is missing"),
    }
    assert_eq!(poller.remove(10), Ok(()));
    assert_eq!(Arc::strong_count(&context), 1);
}

#[test]
fn select_interest_survives_the_round_through_the_sets() {
    for pick in 0..8u32 {
        let mut events = Events::new();
        if pick & 1 != 0 {
            events = events.read();
        }
        if pick & 2 != 0 {
            events = events.write();
        }
        if pick & 4 != 0 {
            events = events.error();
        }
        let mut poller: Poller<u8> = fresh();
        assert_eq!(poller.add(12, events, None), Ok(()));
        let call = poller.wait_request(0);
        let got = poller
            .pull_events(Reply { value: 1, errno: 0 }, &call.read, &call.write, &call.error)
            .unwrap();
        if events.is_none() {
            assert!(got.is_empty());
        } else {
            assert_eq!(got, vec![(12, events, None)]);
        }
    }
}

#[test]
fn select_a_wait_on_an_empty_multiplexer_gives_an_empty_sequence() {
    let poller: Poller<u8> = fresh();
    let call = poller.wait_request(0);
    assert_eq!(call.nfds, 0);
    assert_eq!(call.timeout, Some(Timeval { seconds: 0, micros: 0 }));
    let (reply, read, write, error) = all_readable(&call);
    assert_eq!(reply, Reply { value: 0, errno: 0 });
    assert_eq!(poller.pull_events(reply, &read, &write, &error), Ok(Vec::new()));
}
