use libevent::state::{context_of, slot_of};
use libevent::{
    CallbackWrapper, Delivery, Error, EventBase, EventFlag, EventFlags, EventHandle, ExitReason,
    Libevent, LoopPhase, LoopStep, RawEvent, Registration, Timeval,
};
use std::time::Duration;

fn facade() -> Libevent {
    match Libevent::new(0x2000) {
        Ok(libevent) => libevent,
        Err(e) => panic!("{:?}", e),
    }
}

fn running() -> Libevent {
    let mut libevent = facade();
    assert_eq!(libevent.run(), LoopStep::Dispatch(0));
    libevent
}

#[test]
fn context_words_start_at_one() {
    assert_eq!(context_of(0), Some(1));
    assert_eq!(context_of(41), Some(42));
    assert_eq!(context_of(usize::MAX - 1), Some(usize::MAX));
    assert_eq!(context_of(usize::MAX), None);
}

#[test]
fn slot_of_inverts_context_of() {
    assert_eq!(slot_of(0), None);
    assert_eq!(slot_of(1), Some(0));
    assert_eq!(slot_of(42), Some(41));
    assert_eq!(slot_of(usize::MAX), Some(usize::MAX - 1));
    for slot in [0usize, 1, 2, 1000, usize::MAX - 1] {
        assert_eq!(slot_of(context_of(slot).unwrap()), Some(slot));
    }
}

#[test]
fn facade_from_null_is_an_allocation_failure() {
    assert!(matches!(Libevent::new(0), Err(Error::BaseAllocation)));
}

#[test]
fn new_facade_is_idle_and_empty() {
    let libevent = facade();
    assert_eq!(libevent.phase(), LoopPhase::Idle);
    assert_eq!(libevent.base().as_inner(), 0x2000);
    assert_eq!(libevent.base().event_count(), 0);
    assert_eq!(libevent.callback(0), None);
}

#[test]
fn facade_from_a_base_keeps_its_ledger() {
    let mut base = EventBase::new(0x3000).unwrap();
    let (ev, _) = base.event_new(Some(5), EventFlags::only(EventFlag::Read), Some(77));
    let mut libevent = Libevent::from(base);
    assert_eq!(libevent.phase(), LoopPhase::Idle);
    assert_eq!(libevent.base().as_inner(), 0x3000);
    assert_eq!(libevent.base().event_count(), 1);
    assert_eq!(libevent.base().record(&ev).unwrap().ctx, Some(77));
    assert_eq!(libevent.callback(0), None);
    let registration = libevent.add_oneshot(Duration::from_secs(1)).unwrap();
    assert_eq!(registration.handle, EventHandle { index: 1 });
    assert_eq!(registration.bind.ctx, 1);
    assert_eq!(libevent.callback(0), Some(CallbackWrapper { ev: registration.handle, fired: 0 }));
}

#[test]
fn add_interval_is_the_two_phase_construction_with_persist() {
    let mut libevent = facade();
    let registration = libevent.add_interval(Duration::from_secs(6));
    assert_eq!(
        registration,
        Ok(Registration {
            handle: EventHandle { index: 0 },
            create: RawEvent { fd: -1, events: 0x10, ctx: 0 },
            bind: RawEvent { fd: -1, events: 0x10, ctx: 1 },
            arm: Timeval { tv_sec: 6, tv_usec: 0 },
        })
    );
    let record = libevent.base().record(&EventHandle { index: 0 }).unwrap();
    assert_eq!(record.fd, None);
    assert_eq!(record.flags, EventFlags::only(EventFlag::Persist));
    assert_eq!(record.ctx, Some(1));
    assert!(record.armed);
    assert_eq!(record.timeout, Some(Timeval { tv_sec: 6, tv_usec: 0 }));
    assert_eq!(
        libevent.callback(0),
        Some(CallbackWrapper { ev: EventHandle { index: 0 }, fired: 0 })
    );
    assert_eq!(libevent.callback(1), None);
}

#[test]
fn add_oneshot_is_the_two_phase_construction_without_persist() {
    let mut libevent = facade();
    let registration = libevent.add_oneshot(Duration::from_millis(250));
    assert_eq!(
        registration,
        Ok(Registration {
            handle: EventHandle { index: 0 },
            create: RawEvent { fd: -1, events: 0, ctx: 0 },
            bind: RawEvent { fd: -1, events: 0, ctx: 1 },
            arm: Timeval { tv_sec: 0, tv_usec: 250_000 },
        })
    );
    let record = libevent.base().record(&EventHandle { index: 0 }).unwrap();
    assert_eq!(record.flags, EventFlags::empty());
    assert!(!record.flags.has(EventFlag::Persist));
    assert_eq!(record.ctx, Some(1));
    assert!(record.armed);
}

#[test]
fn registrations_take_consecutive_slots() {
    let mut libevent = facade();
    let first = libevent.add_interval(Duration::from_secs(1)).unwrap();
    let second = libevent.add_oneshot(Duration::from_secs(2)).unwrap();
    let third = libevent.add_interval(Duration::from_secs(3)).unwrap();
    assert_eq!(first.handle.index, 0);
    assert_eq!(second.handle.index, 1);
    assert_eq!(third.handle.index, 2);
    assert_eq!(first.bind.ctx, 1);
    assert_eq!(second.bind.ctx, 2);
    assert_eq!(third.bind.ctx, 3);
    assert_eq!(first.create.ctx, 0);
    assert_eq!(second.create.ctx, 0);
    assert_eq!(third.create.ctx, 0);
    assert_eq!(libevent.base().event_count(), 3);
    assert_eq!(libevent.callback(1).unwrap().ev, second.handle);
    // Earlier registrations are left as they were.
    assert_eq!(libevent.base().record(&first.handle).unwrap().ctx, Some(1));
    assert_eq!(
        libevent.base().record(&first.handle).unwrap().timeout,
        Some(Timeval { tv_sec: 1, tv_usec: 0 })
    );
}

#[test]
fn registration_is_possible_during_a_pass() {
    let mut libevent = running();
    let registration = libevent.add_oneshot(Duration::from_secs(1)).unwrap();
    assert_eq!(libevent.phase(), LoopPhase::Running(libevent::LoopFlags::Empty));
    assert!(libevent.handle_wrapped_callback(-1, 1, registration.bind.ctx).is_some());
}

#[test]
fn turn_is_one_nonblocking_pass() {
    let mut libevent = facade();
    assert_eq!(libevent.turn(), LoopStep::Dispatch(2));
    assert_eq!(libevent.phase(), LoopPhase::Running(libevent::LoopFlags::Nonblock));
}

#[test]
fn turn_with_nothing_ready_reports_no_events_pending() {
    let mut libevent = facade();
    assert_eq!(libevent.turn(), LoopStep::Dispatch(2));
    assert_eq!(libevent.pass_finished(1, 0), ExitReason::NoEventsPending);
    assert_eq!(libevent.phase(), LoopPhase::Idle);
    // and it can be done again at once
    assert_eq!(libevent.turn(), LoopStep::Dispatch(2));
    assert_eq!(libevent.pass_finished(1, 0), ExitReason::NoEventsPending);
}

#[test]
fn run_is_an_unrestricted_pass() {
    let mut libevent = facade();
    assert_eq!(libevent.run(), LoopStep::Dispatch(0));
    assert_eq!(libevent.phase(), LoopPhase::Running(libevent::LoopFlags::Empty));
    assert_eq!(libevent.pass_finished(0, 0), ExitReason::Exited);
    assert_eq!(libevent.phase(), LoopPhase::Idle);
}

#[test]
fn run_timeout_schedules_the_exit_first() {
    let mut libevent = facade();
    assert_eq!(
        libevent.run_timeout(Duration::from_millis(1500)),
        LoopStep::ScheduleExit(Timeval { tv_sec: 1, tv_usec: 500_000 })
    );
    assert_eq!(libevent.phase(), LoopPhase::Scheduling(libevent::LoopFlags::Empty));
    assert_eq!(libevent.exit_scheduled(0), LoopStep::Dispatch(0));
    assert_eq!(libevent.phase(), LoopPhase::Running(libevent::LoopFlags::Empty));
    assert_eq!(libevent.pass_finished(0, 1), ExitReason::GotExit);
    assert_eq!(libevent.phase(), LoopPhase::Idle);
}

#[test]
fn run_timeout_short_circuits_when_the_exit_is_refused() {
    for status in [-1, 1, 7, i32::MIN, i32::MAX] {
        let mut libevent = facade();
        assert!(matches!(
            libevent.run_timeout(Duration::from_secs(2)),
            LoopStep::ScheduleExit(_)
        ));
        assert_eq!(libevent.exit_scheduled(status), LoopStep::Finished(ExitReason::Error));
        assert_eq!(libevent.phase(), LoopPhase::Idle);
    }
}

#[test]
fn run_until_event_without_deadline_is_one_once_pass() {
    let mut libevent = facade();
    assert_eq!(libevent.run_until_event(None), LoopStep::Dispatch(1));
    assert_eq!(libevent.phase(), LoopPhase::Running(libevent::LoopFlags::Once));
    assert_eq!(libevent.pass_finished(0, 0), ExitReason::Exited);
}

#[test]
fn run_until_event_with_deadline_schedules_it_first() {
    let mut libevent = facade();
    assert_eq!(
        libevent.run_until_event(Some(Duration::from_secs(3))),
        LoopStep::ScheduleExit(Timeval { tv_sec: 3, tv_usec: 0 })
    );
    assert_eq!(libevent.phase(), LoopPhase::Scheduling(libevent::LoopFlags::Once));
    assert_eq!(libevent.exit_scheduled(0), LoopStep::Dispatch(1));
    assert_eq!(libevent.pass_finished(0, 1), ExitReason::GotExit);
}

#[test]
fn run_until_event_short_circuits_when_the_exit_is_refused() {
    let mut libevent = facade();
    assert!(matches!(
        libevent.run_until_event(Some(Duration::from_secs(3))),
        LoopStep::ScheduleExit(_)
    ));
    assert_eq!(libevent.exit_scheduled(-1), LoopStep::Finished(ExitReason::Error));
    assert_eq!(libevent.phase(), LoopPhase::Idle);
}

#[test]
fn loop_turn_calls_begin_from_idle_only() {
    let mut libevent = running();
    let during = libevent.phase();
    assert_eq!(libevent.turn(), LoopStep::Finished(ExitReason::Error));
    assert_eq!(libevent.run(), LoopStep::Finished(ExitReason::Error));
    assert_eq!(
        libevent.run_timeout(Duration::from_secs(1)),
        LoopStep::Finished(ExitReason::Error)
    );
    assert_eq!(libevent.run_until_event(None), LoopStep::Finished(ExitReason::Error));
    assert_eq!(
        libevent.run_until_event(Some(Duration::from_secs(1))),
        LoopStep::Finished(ExitReason::Error)
    );
    assert_eq!(libevent.phase(), during);

    let mut libevent = facade();
    assert!(matches!(libevent.run_timeout(Duration::from_secs(1)), LoopStep::ScheduleExit(_)));
    assert_eq!(libevent.turn(), LoopStep::Finished(ExitReason::Error));
    assert_eq!(libevent.phase(), LoopPhase::Scheduling(libevent::LoopFlags::Empty));
}

#[test]
fn replies_out_of_turn_change_nothing() {
    let mut libevent = facade();
    assert_eq!(libevent.exit_scheduled(0), LoopStep::Finished(ExitReason::Error));
    assert_eq!(libevent.pass_finished(0, 0), ExitReason::Error);
    assert_eq!(libevent.phase(), LoopPhase::Idle);

    let mut libevent = running();
    assert_eq!(libevent.exit_scheduled(0), LoopStep::Finished(ExitReason::Error));
    assert_eq!(libevent.phase(), LoopPhase::Running(libevent::LoopFlags::Empty));

    let mut libevent = facade();
    assert!(matches!(libevent.run_timeout(Duration::from_secs(1)), LoopStep::ScheduleExit(_)));
    assert_eq!(libevent.pass_finished(0, 0), ExitReason::Error);
    assert_eq!(libevent.phase(), LoopPhase::Scheduling(libevent::LoopFlags::Empty));
}

#[test]
fn pass_outcomes_by_result_code() {
    let cases = [
        (0, 0, ExitReason::Exited),
        (0, 1, ExitReason::GotExit),
        (1, 0, ExitReason::NoEventsPending),
        (-1, 0, ExitReason::Error),
        (-1, 1, ExitReason::Error),
        (5, 0, ExitReason::Error),
    ];
    for (code, got_exit, expected) in cases {
        let mut libevent = running();
        assert_eq!(libevent.pass_finished(code, got_exit), expected);
        assert_eq!(libevent.phase(), LoopPhase::Idle);
    }
}

#[test]
fn trampoline_hands_over_a_fresh_handle_and_the_decoded_flags() {
    let mut libevent = facade();
    libevent.add_oneshot(Duration::from_secs(9)).unwrap();
    let registration = libevent.add_interval(Duration::from_secs(1)).unwrap();
    assert_eq!(libevent.run(), LoopStep::Dispatch(0));
    let delivery = libevent.handle_wrapped_callback(-1, 0x01, registration.bind.ctx);
    assert_eq!(
        delivery,
        Some(Delivery {
            handle: EventHandle { index: 1 },
            flags: EventFlags::only(EventFlag::Timeout),
        })
    );
    assert_eq!(libevent.callback(1).unwrap().fired, 1);
    assert_eq!(libevent.callback(0).unwrap().fired, 0);
}

#[test]
fn trampoline_truncates_unknown_flag_bits() {
    let mut libevent = facade();
    let registration = libevent.add_interval(Duration::from_secs(1)).unwrap();
    assert_eq!(libevent.run(), LoopStep::Dispatch(0));
    let delivery = libevent.handle_wrapped_callback(-1, 0x0111, registration.bind.ctx).unwrap();
    assert_eq!(delivery.flags.bits(), 0x11);
    assert!(delivery.flags.has(EventFlag::Persist));
    assert!(delivery.flags.has(EventFlag::Timeout));
}

#[test]
fn trampoline_ignores_the_socket() {
    for fd in [-1, 0, 3, i32::MAX] {
        let mut libevent = facade();
        let registration = libevent.add_interval(Duration::from_secs(1)).unwrap();
        assert_eq!(libevent.run(), LoopStep::Dispatch(0));
        let delivery = libevent.handle_wrapped_callback(fd, 1, registration.bind.ctx).unwrap();
        assert_eq!(delivery.handle, registration.handle);
    }
}

#[test]
fn trampoline_ignores_words_that_address_no_wrapper() {
    let mut libevent = facade();
    libevent.add_interval(Duration::from_secs(1)).unwrap();
    assert_eq!(libevent.run(), LoopStep::Dispatch(0));
    assert_eq!(libevent.handle_wrapped_callback(-1, 1, 0), None);
    assert_eq!(libevent.handle_wrapped_callback(-1, 1, 2), None);
    assert_eq!(libevent.handle_wrapped_callback(-1, 1, usize::MAX), None);
    assert_eq!(libevent.callback(0).unwrap().fired, 0);
}

#[test]
fn trampoline_delivers_during_a_pass_only() {
    let mut libevent = facade();
    let registration = libevent.add_interval(Duration::from_secs(1)).unwrap();
    let ctx = registration.bind.ctx;
    assert_eq!(libevent.handle_wrapped_callback(-1, 1, ctx), None);
    assert!(matches!(libevent.run_timeout(Duration::from_secs(1)), LoopStep::ScheduleExit(_)));
    assert_eq!(libevent.handle_wrapped_callback(-1, 1, ctx), None);
    assert_eq!(libevent.exit_scheduled(0), LoopStep::Dispatch(0));
    assert!(libevent.handle_wrapped_callback(-1, 1, ctx).is_some());
    assert_eq!(libevent.pass_finished(0, 1), ExitReason::GotExit);
    assert_eq!(libevent.handle_wrapped_callback(-1, 1, ctx), None);
    assert_eq!(libevent.callback(0).unwrap().fired, 1);
}

#[test]
fn persistent_callback_fires_on_every_invocation() {
    let mut libevent = facade();
    let registration = libevent.add_interval(Duration::from_secs(1)).unwrap();
    let mut count = 0u64;
    for pass in 0..5 {
        assert_eq!(libevent.turn(), LoopStep::Dispatch(2));
        for _ in 0..3 {
            let delivery = libevent.handle_wrapped_callback(-1, 1, registration.bind.ctx);
            assert_eq!(delivery.map(|d| d.handle), Some(registration.handle));
            count += 1;
        }
        assert_eq!(libevent.pass_finished(0, 0), ExitReason::Exited);
        assert_eq!(libevent.callback(0).unwrap().fired, 3 * (pass + 1));
    }
    assert_eq!(count, 15);
}

#[test]
fn oneshot_callback_fires_at_most_once() {
    let mut libevent = facade();
    let registration = libevent.add_oneshot(Duration::from_secs(1)).unwrap();
    let ctx = registration.bind.ctx;
    let mut count = 0;
    for _ in 0..4 {
        assert_eq!(libevent.turn(), LoopStep::Dispatch(2));
        for _ in 0..3 {
            if libevent.handle_wrapped_callback(-1, 1, ctx).is_some() {
                count += 1;
            }
        }
        assert_eq!(libevent.pass_finished(0, 0), ExitReason::Exited);
    }
    assert_eq!(count, 1);
    assert_eq!(libevent.callback(0).unwrap().fired, 1);
}

#[test]
fn oneshot_and_interval_do_not_disturb_each_other() {
    let mut libevent = facade();
    let once = libevent.add_oneshot(Duration::from_secs(1)).unwrap();
    let every = libevent.add_interval(Duration::from_secs(1)).unwrap();
    assert_eq!(libevent.run(), LoopStep::Dispatch(0));
    assert!(libevent.handle_wrapped_callback(-1, 1, once.bind.ctx).is_some());
    assert!(libevent.handle_wrapped_callback(-1, 1, every.bind.ctx).is_some());
    assert!(libevent.handle_wrapped_callback(-1, 1, once.bind.ctx).is_none());
    assert!(libevent.handle_wrapped_callback(-1, 1, every.bind.ctx).is_some());
    assert_eq!(libevent.callback(0).unwrap().fired, 1);
    assert_eq!(libevent.callback(1).unwrap().fired, 2);
}
