//! A verified core for driving a native event reactor.
//!
//! The reactor itself (readiness and timer multiplexing behind a C ABI) is not
//! part of this crate. What lives here is everything that decides: how typed
//! arguments are laid out on the wire, which callback record a raw context
//! addresses, whether a callback is delivered, and how one loop-turn call
//! proceeds from request to outcome. A driver performs the native calls the
//! library asks for and reports their results back.
//!
//! # How a driver uses the facade
//!
//! * Registering a timer returns a [`Registration`]: the arguments of the
//!   allocating call, of the rebinding call and of the arming call, to be
//!   made in that order. The driver files the caller's closure under the slot
//!   that the rebinding call's context word addresses.
//! * A loop-turn call (`turn`, `run`, `run_timeout`, `run_until_event`)
//!   returns a [`LoopStep`]. On `ScheduleExit` the driver asks the reactor for
//!   the exit deadline and hands the status to `exit_scheduled`, which returns
//!   the next step. On `Dispatch` it runs the pass and hands the result to
//!   `pass_finished`, which returns the outcome. On `Finished` the call is
//!   over.
//! * Whenever the reactor invokes the driver's native callback, the driver
//!   passes the three arguments to `handle_wrapped_callback` and runs the
//!   closure of the addressed slot only if a [`Delivery`] comes back.

pub mod event;
pub mod flags;
pub mod state;
pub mod time;

pub use crate::event::{
    Error, EventBase, EventCallbackCtx, EventHandle, EventRecord, EvutilSocket, RawEvent,
};

use crate::event::spec_timeout_arg;
pub use crate::flags::{EventFlag, EventFlags, ExitReason, LoopFlags};
pub use crate::state::{CallbackWrapper, Delivery, LoopPhase, LoopStep, State};
pub use crate::time::Timeval;

use crate::state::{context_of, slot_of, spec_context_of, Op};
use std::time::Duration;
use vstd::prelude::*;

verus! {

/// What registering a timer asks of the driver: the three native calls of
/// the two-phase construction, in order, and the handle of the new event.
#[derive(Clone, Copy, Debug, PartialEq, Eq, Structural)]
pub struct Registration {
    /// The new event.
    pub handle: EventHandle,
    /// First call: allocate the event, with a placeholder context.
    pub create: RawEvent,
    /// Second call: bind the event anew, now with the context word that
    /// addresses its callback wrapper.
    pub bind: RawEvent,
    /// Third call: arm the event with this timeout.
    pub arm: Timeval,
}

/// The facade: an event base, the registry of callback wrappers, and the
/// loop-turn call in progress.
pub struct Libevent {
    base: EventBase,
    callbacks: Vec<CallbackWrapper>,
    phase: LoopPhase,
}

impl View for Libevent {
    type V = State;

    closed spec fn view(&self) -> State {
        State { events: self.base@, callbacks: self.callbacks@, phase: self.phase }
    }
}

impl Libevent {
    /// The event base of this facade.
    pub closed spec fn spec_base(&self) -> EventBase {
        self.base
    }

    /// The state is one a facade can reach.
    pub open spec fn wf(&self) -> bool {
        &&& self.spec_base()@ == self@.events
        &&& self@.wf()
    }

    /// A facade over the reactor instance at `raw`, the address that the
    /// native allocation returned. A null address means that the
    /// allocation failed.
    pub fn new(raw: usize) -> (r: Result<Libevent, Error>)
        ensures
            raw == 0 <==> r == Err::<Libevent, Error>(Error::BaseAllocation),
            raw != 0 <==> r is Ok,
            r matches Ok(libevent) ==> {
                &&& libevent.wf()
                &&& libevent@ == State::initial(Seq::empty())
                &&& libevent.spec_base().spec_as_inner() == raw
            },
    {
        match EventBase::new(raw) {
            Ok(base) => Ok(Libevent { base, callbacks: Vec::new(), phase: LoopPhase::Idle }),
            Err(e) => Err(e),
        }
    }

    /// The event base, for reading.
    pub fn base(&self) -> (base: &EventBase)
        ensures
            *base == self.spec_base(),
    {
        &self.base
    }

    /// The phase of the loop-turn call in progress.
    pub fn phase(&self) -> (phase: LoopPhase)
        ensures
            phase == self@.phase,
    {
        self.phase
    }

    /// The wrapper in registry slot `slot`.
    pub fn callback(&self, slot: usize) -> (r: Option<CallbackWrapper>)
        ensures
            slot < self@.callbacks.len() ==> r == Some(self@.callbacks[slot as int]),
            slot >= self@.callbacks.len() ==> r is None,
    {
        if slot < self.callbacks.len() {
            Some(self.callbacks[slot])
        } else {
            None
        }
    }

    /// Begins a loop-turn call, for the four public entry points.
    fn start(&mut self, exit_after: Option<Duration>, flags: LoopFlags) -> (step: LoopStep)
        requires
            old(self).wf(),
        ensures
            final(self).wf(),
            final(self).spec_base() == old(self).spec_base(),
            final(self)@ == old(self)@.after_start(spec_timeout_arg(exit_after), flags),
            step == old(self)@.start_step(spec_timeout_arg(exit_after), flags),
    {
        proof {
            self@.lemma_apply_wf(
                Op::Start { exit_after: spec_timeout_arg(exit_after), mode: flags },
            );
        }
        match self.phase {
            LoopPhase::Idle => match exit_after {
                Some(timeout) => {
                    let span: Timeval = self.base.loopexit(timeout);
                    self.phase = LoopPhase::Scheduling(flags);
                    LoopStep::ScheduleExit(span)
                },
                None => {
                    let mode: i32 = self.base.loop_(flags);
                    self.phase = LoopPhase::Running(flags);
                    LoopStep::Dispatch(mode)
                },
            },
            _ => LoopStep::Finished(ExitReason::Error),
        }
    }

    /// One pass that never blocks: the callbacks of what is ready now run,
    /// and the pass returns.
    pub fn turn(&mut self) -> (step: LoopStep)
        requires
            old(self).wf(),
        ensures
            final(self).wf(),
            final(self).spec_base() == old(self).spec_base(),
            final(self)@ == old(self)@.after_start(None, LoopFlags::Nonblock),
            step == old(self)@.start_step(None, LoopFlags::Nonblock),
    {
        self.start(None, LoopFlags::Nonblock)
    }

    /// Passes until the reactor has nothing left, an exit is requested, or
    /// `timeout` has elapsed. The deadline is scheduled first, and no pass
    /// is attempted unless the reactor accepted it.
    pub fn run_timeout(&mut self, timeout: Duration) -> (step: LoopStep)
        requires
            old(self).wf(),
        ensures
            final(self).wf(),
            final(self).spec_base() == old(self).spec_base(),
            final(self)@ == old(self)@.after_start(
                Some(Timeval::spec_from_duration(timeout)),
                LoopFlags::Empty,
            ),
            step == old(self)@.start_step(
                Some(Timeval::spec_from_duration(timeout)),
                LoopFlags::Empty,
            ),
    {
        self.start(Some(timeout), LoopFlags::Empty)
    }

    /// One pass that returns after the first batch of ready events, or at
    /// the deadline if one is given, whichever comes first.
    pub fn run_until_event(&mut self, timeout: Option<Duration>) -> (step: LoopStep)
        requires
            old(self).wf(),
        ensures
            final(self).wf(),
            final(self).spec_base() == old(self).spec_base(),
            final(self)@ == old(self)@.after_start(spec_timeout_arg(timeout), LoopFlags::Once),
            step == old(self)@.start_step(spec_timeout_arg(timeout), LoopFlags::Once),
    {
        self.start(timeout, LoopFlags::Once)
    }

    /// Passes until the reactor has nothing left or an exit is requested.
    pub fn run(&mut self) -> (step: LoopStep)
        requires
            old(self).wf(),
        ensures
            final(self).wf(),
            final(self).spec_base() == old(self).spec_base(),
            final(self)@ == old(self)@.after_start(None, LoopFlags::Empty),
            step == old(self)@.start_step(None, LoopFlags::Empty),
    {
        self.start(None, LoopFlags::Empty)
    }

    /// Takes the status with which the reactor answered the request for an
    /// exit deadline. On zero the pass is next; on any other status the
    /// call is over with `Error` and no pass is attempted.
    pub fn exit_scheduled(&mut self, status: i32) -> (step: LoopStep)
        requires
            old(self).wf(),
        ensures
            final(self).wf(),
            final(self).spec_base() == old(self).spec_base(),
            final(self)@ == old(self)@.after_exit_scheduled(status),
            step == old(self)@.exit_scheduled_step(status),
    {
        proof {
            self@.lemma_apply_wf(Op::ExitScheduled { status });
        }
        match self.phase {
            LoopPhase::Scheduling(flags) => {
                if status == 0 {
                    let mode: i32 = self.base.loop_(flags);
                    self.phase = LoopPhase::Running(flags);
                    LoopStep::Dispatch(mode)
                } else {
                    self.phase = LoopPhase::Idle;
                    LoopStep::Finished(ExitReason::Error)
                }
            },
            _ => LoopStep::Finished(ExitReason::Error),
        }
    }

    /// Takes the result code of the reactor's pass, and its answer to
    /// whether the pass ended on a requested exit (zero for no). Returns
    /// the outcome of the loop-turn call, which is then over.
    pub fn pass_finished(&mut self, code: i32, got_exit: i32) -> (reason: ExitReason)
        requires
            old(self).wf(),
        ensures
            final(self).wf(),
            final(self).spec_base() == old(self).spec_base(),
            final(self)@ == old(self)@.after_pass_finished(),
            reason == old(self)@.pass_outcome(code, got_exit),
    {
        proof {
            self@.lemma_apply_wf(Op::PassFinished);
        }
        match self.phase {
            LoopPhase::Running(_) => {
                self.phase = LoopPhase::Idle;
                self.base.loop_outcome(code, got_exit)
            },
            _ => ExitReason::Error,
        }
    }

    /// The trampoline: what every invocation by the reactor goes through.
    /// The context word is looked up in the registry; if it addresses a
    /// wrapper that is due, the delivery is counted and the callback's
    /// arguments are returned: a fresh handle to the wrapper's event, and
    /// the flags decoded from `events`. The socket plays no part.
    pub fn handle_wrapped_callback(
        &mut self,
        _fd: EvutilSocket,
        events: i16,
        ctx: EventCallbackCtx,
    ) -> (r: Option<Delivery>)
        requires
            old(self).wf(),
        ensures
            final(self).wf(),
            final(self).spec_base() == old(self).spec_base(),
            final(self)@ == old(self)@.after_callback(ctx),
            r == old(self)@.delivery(events, ctx),
    {
        proof {
            self@.lemma_apply_wf(Op::Callback { ctx });
        }
        let running: bool = match self.phase {
            LoopPhase::Running(_) => true,
            _ => false,
        };
        if !running {
            return None;
        }
        let slot: usize = match slot_of(ctx) {
            Some(slot) => slot,
            None => {
                return None;
            },
        };
        if slot >= self.callbacks.len() {
            return None;
        }
        let wrapper: CallbackWrapper = self.callbacks[slot];
        assert(self@.bound(slot as int));
        let record: EventRecord = match self.base.record(&wrapper.ev) {
            Some(record) => record,
            None => {
                return None;
            },
        };
        if !record.armed {
            return None;
        }
        if !record.flags.has(EventFlag::Persist) && wrapper.fired != 0 {
            return None;
        }
        let fired: u64 = if wrapper.fired < u64::MAX {
            wrapper.fired + 1
        } else {
            wrapper.fired
        };
        self.callbacks.set(slot, CallbackWrapper { ev: wrapper.ev, fired });
        Some(Delivery { handle: wrapper.ev, flags: EventFlags::from_wire(events) })
    }

    /// Registers a timer by the two-phase construction: allocate the event
    /// with a placeholder context, file its wrapper, bind the event anew
    /// with the context word of that wrapper, and arm it.
    fn add_timer(&mut self, tv: Duration, flags: EventFlags) -> (r: Result<Registration, Error>)
        requires
            old(self).wf(),
        ensures
            final(self).wf(),
            final(self).spec_base().spec_as_inner() == old(self).spec_base().spec_as_inner(),
            final(self)@ == old(self)@.after_add_timer(Timeval::spec_from_duration(tv), flags),
            r == spec_registration(old(self)@, Timeval::spec_from_duration(tv), flags),
    {
        proof {
            self@.lemma_after_add_timer_wf(Timeval::spec_from_duration(tv), flags);
        }
        let slot: usize = self.callbacks.len();
        let ctx: EventCallbackCtx = match context_of(slot) {
            Some(word) => word,
            None => {
                return Err(Error::RegistryFull);
            },
        };
        if self.base.event_count() == usize::MAX {
            return Err(Error::RegistryFull);
        }
        let (ev, create) = self.base.event_new(None, flags, None);
        self.callbacks.push(CallbackWrapper { ev, fired: 0 });
        let bind: RawEvent = match self.base.event_assign(&ev, None, flags, Some(ctx)) {
            Ok(raw) => raw,
            Err(e) => {
                return Err(e);
            },
        };
        let arm: Timeval = match self.base.event_add(&ev, Some(tv)) {
            Ok(Some(span)) => span,
            Ok(None) => {
                return Err(Error::UnknownEvent);
            },
            Err(e) => {
                return Err(e);
            },
        };
        assert(self@.events =~= old(self)@.after_add_timer(
            Timeval::spec_from_duration(tv),
            flags,
        ).events);
        Ok(Registration { handle: ev, create, bind, arm })
    }

    /// Registers a timer that fires every `interval` until the facade is
    /// dropped.
    pub fn add_interval(&mut self, interval: Duration) -> (r: Result<Registration, Error>)
        requires
            old(self).wf(),
        ensures
            final(self).wf(),
            final(self).spec_base().spec_as_inner() == old(self).spec_base().spec_as_inner(),
            final(self)@ == old(self)@.after_add_timer(
                Timeval::spec_from_duration(interval),
                EventFlags::spec_only(EventFlag::Persist),
            ),
            r == spec_registration(
                old(self)@,
                Timeval::spec_from_duration(interval),
                EventFlags::spec_only(EventFlag::Persist),
            ),
    {
        self.add_timer(interval, EventFlags::only(EventFlag::Persist))
    }

    /// Registers a timer that fires once, after `timeout`.
    pub fn add_oneshot(&mut self, timeout: Duration) -> (r: Result<Registration, Error>)
        requires
            old(self).wf(),
        ensures
            final(self).wf(),
            final(self).spec_base().spec_as_inner() == old(self).spec_base().spec_as_inner(),
            final(self)@ == old(self)@.after_add_timer(
                Timeval::spec_from_duration(timeout),
                EventFlags::spec_empty(),
            ),
            r == spec_registration(
                old(self)@,
                Timeval::spec_from_duration(timeout),
                EventFlags::spec_empty(),
            ),
    {
        self.add_timer(timeout, EventFlags::empty())
    }
}

impl vstd::std_specs::convert::FromSpecImpl<EventBase> for Libevent {
    /// The conversion is specified by the `ensures` of `from` below: two
    /// facades in the same state need not be the same value.
    open spec fn obeys_from_spec() -> bool {
        false
    }

    open spec fn from_spec(base: EventBase) -> Libevent {
        choose|libevent: Libevent|
            libevent.wf() && libevent.spec_base() == base && libevent@ == State::initial(base@)
    }
}

impl From<EventBase> for Libevent {
    /// A facade over an existing base, with nothing registered and no
    /// loop-turn call in progress.
    fn from(base: EventBase) -> (libevent: Libevent)
        ensures
            libevent.wf(),
            libevent.spec_base() == base,
            libevent@ == State::initial(base@),
    {
        let count: usize = base.event_count();
        Libevent { base, callbacks: Vec::new(), phase: LoopPhase::Idle }
    }
}

/// What registering a timer returns in state `before`: the steps of the
/// two-phase construction for the next free event and slot, or
/// `RegistryFull` where none is free.
pub open spec fn spec_registration(before: State, timeout: Timeval, flags: EventFlags) -> Result<
    Registration,
    Error,
> {
    if before.has_room() {
        Ok(
            Registration {
                handle: EventHandle { index: before.events.len() as usize },
                create: RawEvent::spec_encode(None, flags, None),
                bind: RawEvent::spec_encode(
                    None,
                    flags,
                    Some(spec_context_of(before.callbacks.len() as usize)),
                ),
                arm: timeout,
            },
        )
    } else {
        Err(Error::RegistryFull)
    }
}

/// A registration made with `Persist` reports `Persist` in its callback:
/// when the reactor hands the flag word of the registration to the
/// trampoline and the invocation is delivered, the decoded flags hold it.
pub proof fn lemma_registered_persist_is_reported(
    before: State,
    timeout: Timeval,
    flags: EventFlags,
    during: State,
    ctx: EventCallbackCtx,
)
    requires
        flags.wf(),
        flags.has(EventFlag::Persist),
        before.has_room(),
        during.delivers(ctx),
    ensures
        spec_registration(before, timeout, flags) matches Ok(registration) && during.delivery(
            registration.bind.events,
            ctx,
        ) matches Some(delivery) && delivery.flags == flags && delivery.flags.has(
            EventFlag::Persist,
        ),
{
    flags.lemma_wire_round_trip();
}

} // verus!
