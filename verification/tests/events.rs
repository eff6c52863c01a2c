use poller::{Event, Events};
use std::collections::HashSet;

#[test]
fn new_set_is_empty() {
    let events = Events::new();
    assert!(events.is_none());
    assert!(!events.has_read());
    assert!(!events.has_write());
    assert!(!events.has_error());
}

#[test]
fn default_set_is_the_empty_set() {
    assert_eq!(Events::default(), Events::new());
    assert!(Events::default().is_none());
}

#[test]
fn each_setter_adds_its_own_condition() {
    let read = Events::new().read();
    assert!(read.has_read());
    assert!(!read.has_write());
    assert!(!read.has_error());
    assert!(!read.is_none());

    let write = Events::new().write();
    assert!(!write.has_read());
    assert!(write.has_write());
    assert!(!write.has_error());
    assert!(!write.is_none());

    let error = Events::new().error();
    assert!(!error.has_read());
    assert!(!error.has_write());
    assert!(error.has_error());
    assert!(!error.is_none());
}

#[test]
fn every_combination_reports_what_was_included() {
    for pick in 0..8u32 {
        let read = pick & 1 != 0;
        let write = pick & 2 != 0;
        let error = pick & 4 != 0;
        let mut events = Events::new();
        if read {
            events = events.read();
        }
        if write {
            events = events.write();
        }
        if error {
            events = events.error();
        }
        assert_eq!(events.has_read(), read);
        assert_eq!(events.has_write(), write);
        assert_eq!(events.has_error(), error);
        assert_eq!(events.is_none(), !read && !write && !error);
        assert!(events.none().is_none());
    }
}

#[test]
fn setters_commute_and_repeat_without_effect() {
    let a = Events::new().read().write().error();
    let b = Events::new().error().write().read();
    let c = Events::new().read().read().write().error().write();
    assert_eq!(a, b);
    assert_eq!(a, c);
    assert_ne!(a, Events::new().read().write());
}

#[test]
fn none_clears_whatever_was_set() {
    let cleared = Events::new().read().write().error().none();
    assert!(cleared.is_none());
    assert!(!cleared.has_read());
    assert!(!cleared.has_write());
    assert!(!cleared.has_error());
    assert_eq!(cleared, Events::new());
    assert!(cleared.read().has_read());
}

#[test]
fn equal_sets_hash_alike() {
    let mut seen = HashSet::new();
    assert!(seen.insert(Events::new().read().write()));
    assert!(!seen.insert(Events::new().write().read()));
    assert!(seen.insert(Events::new().read()));
    assert!(seen.insert(Events::new()));
    assert_eq!(seen.len(), 3);
}

#[test]
fn sets_are_copied_not_shared() {
    let first = Events::new().read();
    let second = first;
    let third = second.write();
    assert!(first.has_read());
    assert!(!first.has_write());
    assert!(third.has_read() && third.has_write());
}

#[test]
fn ordinals_follow_the_enumeration() {
    assert_eq!(Event::Nothing.ordinal(), 0);
    assert_eq!(Event::Read.ordinal(), 1);
    assert_eq!(Event::Write.ordinal(), 2);
    assert_eq!(Event::Error.ordinal(), 3);
    assert_eq!(Event::EdgeTriggered.ordinal(), 4);
    assert_eq!(Event::HangUp.ordinal(), 5);
    assert_eq!(Event::OneShot.ordinal(), 6);
}

#[test]
fn masks_are_one_bit_at_the_ordinal() {
    assert_eq!(Event::Nothing.mask(), 0x01);
    assert_eq!(Event::Read.mask(), 0x02);
    assert_eq!(Event::Write.mask(), 0x04);
    assert_eq!(Event::Error.mask(), 0x08);
    assert_eq!(Event::EdgeTriggered.mask(), 0x10);
    assert_eq!(Event::HangUp.mask(), 0x20);
    assert_eq!(Event::OneShot.mask(), 0x40);
}

#[test]
fn conditions_compare_by_variant() {
    assert_eq!(Event::Read, Event::Read);
    assert_ne!(Event::Read, Event::Write);
    let copy = Event::HangUp;
    assert_eq!(copy, Event::HangUp);
    assert_eq!(format!("{:?}", Event::OneShot), "OneShot");
}

#[test]
fn sets_render_as_eight_hex_digits() {
    assert_eq!(Events::new().to_string(), "0x00000000");
    assert_eq!(Events::new().read().to_string(), "0x00000002");
    assert_eq!(Events::new().write().to_string(), "0x00000004");
    assert_eq!(Events::new().error().to_string(), "0x00000008");
    assert_eq!(Events::new().read().write().error().to_string(), "0x0000000E");
    assert_eq!(Events::new().write().error().to_string(), "0x0000000C");
}
