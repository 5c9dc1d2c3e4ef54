use libevent::event::{NO_CONTEXT, NO_SOCKET};
use libevent::{
    Error, EventBase, EventFlag, EventFlags, EventHandle, ExitReason, LoopFlags, RawEvent, Timeval,
};
use std::time::Duration;

fn base() -> EventBase {
    match EventBase::new(0x1000) {
        Ok(base) => base,
        Err(e) => panic!("{:?}", e),
    }
}

#[test]
fn base_from_null_is_an_allocation_failure() {
    assert!(matches!(EventBase::new(0), Err(Error::BaseAllocation)));
}

#[test]
fn base_keeps_its_reactor() {
    let base = base();
    assert_eq!(base.as_inner(), 0x1000);
    assert_eq!(base.event_count(), 0);
    let one = match EventBase::new(1) {
        Ok(base) => base,
        Err(e) => panic!("{:?}", e),
    };
    assert_eq!(one.as_inner(), 1);
}

#[test]
fn raw_event_of_a_pure_timer() {
    let raw = RawEvent::encode(None, EventFlags::only(EventFlag::Persist), None);
    assert_eq!(NO_SOCKET, -1);
    assert_eq!(NO_CONTEXT, 0);
    assert_eq!(raw, RawEvent { fd: -1, events: 0x10, ctx: 0 });
}

#[test]
fn raw_event_of_a_socket_with_context() {
    let flags = EventFlags::only(EventFlag::Read).union(EventFlags::only(EventFlag::Write));
    let raw = RawEvent::encode(Some(7), flags, Some(0xbeef));
    assert_eq!(raw, RawEvent { fd: 7, events: 0x06, ctx: 0xbeef });
    let raw = RawEvent::encode(Some(0), EventFlags::empty(), Some(1));
    assert_eq!(raw, RawEvent { fd: 0, events: 0, ctx: 1 });
}

#[test]
fn event_new_numbers_events_in_order() {
    let mut base = base();
    let (first, raw) = base.event_new(None, EventFlags::empty(), None);
    assert_eq!(first, EventHandle { index: 0 });
    assert_eq!(raw, RawEvent { fd: -1, events: 0, ctx: 0 });
    let (second, raw) = base.event_new(Some(3), EventFlags::only(EventFlag::Read), Some(9));
    assert_eq!(second, EventHandle { index: 1 });
    assert_eq!(raw, RawEvent { fd: 3, events: 0x02, ctx: 9 });
    assert_eq!(base.event_count(), 2);
    assert!(base.owns(&first));
    assert!(base.owns(&second));
    assert!(!base.owns(&EventHandle { index: 2 }));
}

#[test]
fn event_new_does_not_arm() {
    let mut base = base();
    let (ev, _) = base.event_new(Some(3), EventFlags::only(EventFlag::Read), Some(9));
    let record = base.record(&ev).unwrap();
    assert_eq!(record.fd, Some(3));
    assert_eq!(record.flags, EventFlags::only(EventFlag::Read));
    assert_eq!(record.ctx, Some(9));
    assert!(!record.armed);
    assert_eq!(record.timeout, None);
}

#[test]
fn event_assign_rebinds_without_allocating() {
    let mut base = base();
    let (ev, _) = base.event_new(None, EventFlags::only(EventFlag::Persist), None);
    let raw = base.event_assign(&ev, None, EventFlags::only(EventFlag::Persist), Some(1));
    assert_eq!(raw, Ok(RawEvent { fd: -1, events: 0x10, ctx: 1 }));
    assert_eq!(base.event_count(), 1);
    let record = base.record(&ev).unwrap();
    assert_eq!(record.fd, None);
    assert_eq!(record.ctx, Some(1));
    assert_eq!(record.flags, EventFlags::only(EventFlag::Persist));
    assert!(!record.armed);
}

#[test]
fn event_assign_keeps_the_arming() {
    let mut base = base();
    let (ev, _) = base.event_new(None, EventFlags::empty(), None);
    assert!(base.event_add(&ev, Some(Duration::from_secs(2))).is_ok());
    let raw = base.event_assign(&ev, Some(4), EventFlags::only(EventFlag::Write), Some(5));
    assert_eq!(raw, Ok(RawEvent { fd: 4, events: 0x04, ctx: 5 }));
    let record = base.record(&ev).unwrap();
    assert!(record.armed);
    assert_eq!(record.timeout, Some(Timeval { tv_sec: 2, tv_usec: 0 }));
    assert_eq!(record.fd, Some(4));
}

#[test]
fn event_assign_rejects_a_foreign_handle() {
    let mut base = base();
    let stranger = EventHandle { index: 0 };
    assert_eq!(
        base.event_assign(&stranger, None, EventFlags::empty(), None),
        Err(Error::UnknownEvent)
    );
    assert_eq!(base.event_count(), 0);
    let (ev, _) = base.event_new(None, EventFlags::empty(), Some(3));
    let stranger = EventHandle { index: 1 };
    assert_eq!(
        base.event_assign(&stranger, Some(1), EventFlags::only(EventFlag::Read), Some(8)),
        Err(Error::UnknownEvent)
    );
    let record = base.record(&ev).unwrap();
    assert_eq!(record.ctx, Some(3));
    assert_eq!(record.fd, None);
}

#[test]
fn event_add_arms_with_a_timeout() {
    let mut base = base();
    let (ev, _) = base.event_new(None, EventFlags::empty(), None);
    let arg = base.event_add(&ev, Some(Duration::from_millis(2500)));
    assert_eq!(arg, Ok(Some(Timeval { tv_sec: 2, tv_usec: 500_000 })));
    let record = base.record(&ev).unwrap();
    assert!(record.armed);
    assert_eq!(record.timeout, Some(Timeval { tv_sec: 2, tv_usec: 500_000 }));
    assert_eq!(record.ctx, None);
}

#[test]
fn event_add_arms_without_a_timeout() {
    let mut base = base();
    let (ev, _) = base.event_new(Some(2), EventFlags::only(EventFlag::Read), None);
    assert_eq!(base.event_add(&ev, None), Ok(None));
    let record = base.record(&ev).unwrap();
    assert!(record.armed);
    assert_eq!(record.timeout, None);
}

#[test]
fn event_add_rejects_a_foreign_handle() {
    let mut base = base();
    let (ev, _) = base.event_new(None, EventFlags::empty(), None);
    let stranger = EventHandle { index: 5 };
    assert_eq!(base.event_add(&stranger, Some(Duration::from_secs(1))), Err(Error::UnknownEvent));
    assert!(!base.record(&ev).unwrap().armed);
    assert!(base.record(&stranger).is_none());
}

#[test]
fn loopexit_argument_is_the_duration() {
    let base = base();
    assert_eq!(
        base.loopexit(Duration::from_millis(1500)),
        Timeval { tv_sec: 1, tv_usec: 500_000 }
    );
    assert_eq!(base.loopexit(Duration::from_secs(0)), Timeval { tv_sec: 0, tv_usec: 0 });
}

#[test]
fn loop_argument_is_the_mode_word() {
    let base = base();
    assert_eq!(base.loop_(LoopFlags::Empty), 0);
    assert_eq!(base.loop_(LoopFlags::Once), 1);
    assert_eq!(base.loop_(LoopFlags::Nonblock), 2);
}

#[test]
fn loop_outcome_of_each_result() {
    let base = base();
    assert_eq!(base.loop_outcome(0, 0), ExitReason::Exited);
    assert_eq!(base.loop_outcome(0, 1), ExitReason::GotExit);
    assert_eq!(base.loop_outcome(0, -1), ExitReason::GotExit);
    assert_eq!(base.loop_outcome(1, 0), ExitReason::NoEventsPending);
    assert_eq!(base.loop_outcome(1, 1), ExitReason::NoEventsPending);
    assert_eq!(base.loop_outcome(-1, 0), ExitReason::Error);
    assert_eq!(base.loop_outcome(3, 0), ExitReason::Error);
}
