//! The event base: what the reactor has been told about each event, and how
//! typed arguments are laid out for its native calls.

use crate::flags::{EventFlags, ExitReason, LoopFlags};
use crate::time::Timeval;
use std::time::Duration;
use vstd::prelude::*;

verus! {

/// A socket as the reactor names it.
pub type EvutilSocket = i32;

/// The word that travels in an event's opaque context slot.
pub type EventCallbackCtx = usize;

/// The socket argument of an event that watches no socket.
pub const NO_SOCKET: EvutilSocket = -1;

/// The context word of an event whose context is not bound yet.
pub const NO_CONTEXT: EventCallbackCtx = 0;

/// What can go wrong between the library and its reactor.
#[derive(Clone, Copy, Debug, PartialEq, Eq, Structural)]
pub enum Error {
    /// The reactor instance could not be allocated.
    BaseAllocation,
    /// The handle names no event of this base.
    UnknownEvent,
    /// No further event or callback can be numbered.
    RegistryFull,
}

/// Names one event of one base: its position in that base's ledger.
#[derive(Clone, Copy, Debug, PartialEq, Eq, Structural)]
pub struct EventHandle {
    pub index: usize,
}

/// The arguments of the native call that allocates or rebinds an event.
#[derive(Clone, Copy, Debug, PartialEq, Eq, Structural)]
pub struct RawEvent {
    /// The socket, or `NO_SOCKET`.
    pub fd: EvutilSocket,
    /// The event flag word.
    pub events: i16,
    /// The context word, or `NO_CONTEXT`.
    pub ctx: EventCallbackCtx,
}

impl RawEvent {
    /// The wire layout of a typed event description.
    pub open spec fn spec_encode(
        fd: Option<EvutilSocket>,
        flags: EventFlags,
        ctx: Option<EventCallbackCtx>,
    ) -> RawEvent {
        RawEvent {
            fd: match fd {
                Some(socket) => socket,
                None => NO_SOCKET,
            },
            events: flags.spec_to_wire(),
            ctx: match ctx {
                Some(word) => word,
                None => NO_CONTEXT,
            },
        }
    }

    /// The wire layout of a typed event description.
    #[verifier::when_used_as_spec(spec_encode)]
    pub fn encode(
        fd: Option<EvutilSocket>,
        flags: EventFlags,
        ctx: Option<EventCallbackCtx>,
    ) -> (raw: RawEvent)
        ensures
            raw == RawEvent::spec_encode(fd, flags, ctx),
    {
        RawEvent {
            fd: match fd {
                Some(socket) => socket,
                None => NO_SOCKET,
            },
            events: flags.to_wire(),
            ctx: match ctx {
                Some(word) => word,
                None => NO_CONTEXT,
            },
        }
    }
}

/// What the reactor has been told about one event.
#[derive(Clone, Copy, Debug)]
pub struct EventRecord {
    /// The socket the event watches, if any.
    pub fd: Option<EvutilSocket>,
    /// The flags the event was bound with.
    pub flags: EventFlags,
    /// The context the event was bound with, if any.
    pub ctx: Option<EventCallbackCtx>,
    /// Whether the event has been armed.
    pub armed: bool,
    /// The timeout it was armed with, if any.
    pub timeout: Option<Timeval>,
}

impl EventRecord {
    /// The record of an event that was just allocated.
    pub open spec fn fresh(
        fd: Option<EvutilSocket>,
        flags: EventFlags,
        ctx: Option<EventCallbackCtx>,
    ) -> EventRecord {
        EventRecord { fd, flags, ctx, armed: false, timeout: None }
    }

    /// The record after the event was bound anew.
    pub open spec fn rebound(
        self,
        fd: Option<EvutilSocket>,
        flags: EventFlags,
        ctx: Option<EventCallbackCtx>,
    ) -> EventRecord {
        EventRecord { fd, flags, ctx, armed: self.armed, timeout: self.timeout }
    }

    /// The record after the event was armed.
    pub open spec fn added(self, timeout: Option<Timeval>) -> EventRecord {
        EventRecord { fd: self.fd, flags: self.flags, ctx: self.ctx, armed: true, timeout }
    }
}

/// The timeout argument of a native call, for an optional duration.
pub open spec fn spec_timeout_arg(timeout: Option<Duration>) -> Option<Timeval> {
    match timeout {
        Some(d) => Some(Timeval::spec_from_duration(d)),
        None => None,
    }
}

/// Owns one reactor instance and keeps the ledger of its events.
///
/// The view of a base is its ledger: one record per allocated event, in the
/// order of allocation. A handle's index is a position in it.
pub struct EventBase {
    raw: usize,
    events: Vec<EventRecord>,
}

impl View for EventBase {
    type V = Seq<EventRecord>;

    closed spec fn view(&self) -> Seq<EventRecord> {
        self.events@
    }
}

impl EventBase {
    /// The address of the reactor instance.
    pub closed spec fn spec_as_inner(&self) -> usize {
        self.raw
    }

    /// The base owns a reactor instance.
    #[verifier::type_invariant]
    pub open spec fn wf(&self) -> bool {
        self.spec_as_inner() != 0
    }

    /// Whether `ev` names an event of this base.
    pub open spec fn spec_owns(&self, ev: EventHandle) -> bool {
        ev.index < self@.len()
    }

    /// Takes ownership of the reactor instance at `raw`, the address that
    /// the native allocation returned. A null address means that the
    /// allocation failed.
    pub fn new(raw: usize) -> (r: Result<EventBase, Error>)
        ensures
            raw == 0 <==> r == Err::<EventBase, Error>(Error::BaseAllocation),
            raw != 0 <==> r is Ok,
            r matches Ok(base) ==> base.spec_as_inner() == raw && base@ == Seq::<
                EventRecord,
            >::empty(),
    {
        if raw == 0 {
            Err(Error::BaseAllocation)
        } else {
            Ok(EventBase { raw, events: Vec::new() })
        }
    }

    /// The address of the reactor instance.
    #[verifier::when_used_as_spec(spec_as_inner)]
    pub fn as_inner(&self) -> (raw: usize)
        ensures
            raw == self.spec_as_inner(),
            raw != 0,
    {
        proof {
            use_type_invariant(self);
        }
        self.raw
    }

    /// The number of events allocated so far.
    pub fn event_count(&self) -> (n: usize)
        ensures
            n == self@.len(),
    {
        self.events.len()
    }

    /// Whether `ev` names an event of this base.
    pub fn owns(&self, ev: &EventHandle) -> (r: bool)
        ensures
            r == self.spec_owns(*ev),
    {
        ev.index < self.events.len()
    }

    /// The record of the event that `ev` names.
    pub fn record(&self, ev: &EventHandle) -> (r: Option<EventRecord>)
        ensures
            self.spec_owns(*ev) ==> r == Some(self@[ev.index as int]),
            !self.spec_owns(*ev) ==> r is None,
    {
        if ev.index < self.events.len() {
            Some(self.events[ev.index])
        } else {
            None
        }
    }

    /// Allocates an event bound to this base, without arming it. Returns
    /// its handle and the arguments of the native allocation.
    pub fn event_new(
        &mut self,
        fd: Option<EvutilSocket>,
        flags: EventFlags,
        ctx: Option<EventCallbackCtx>,
    ) -> (r: (EventHandle, RawEvent))
        ensures
            final(self).spec_as_inner() == old(self).spec_as_inner(),
            final(self)@ == old(self)@.push(EventRecord::fresh(fd, flags, ctx)),
            r.0.index == old(self)@.len(),
            r.1 == RawEvent::spec_encode(fd, flags, ctx),
    {
        proof {
            use_type_invariant(&*self);
        }
        let mut events: Vec<EventRecord> = Vec::new();
        std::mem::swap(&mut events, &mut self.events);
        let index: usize = events.len();
        events.push(EventRecord { fd, flags, ctx, armed: false, timeout: None });
        self.events = events;
        (EventHandle { index }, RawEvent::encode(fd, flags, ctx))
    }

    /// Binds an allocated event anew, without allocating. Returns the
    /// arguments of the native rebinding, or `UnknownEvent` for a handle
    /// that names no event of this base, which changes nothing.
    pub fn event_assign(
        &mut self,
        ev: &EventHandle,
        fd: Option<EvutilSocket>,
        flags: EventFlags,
        ctx: Option<EventCallbackCtx>,
    ) -> (r: Result<RawEvent, Error>)
        ensures
            final(self).spec_as_inner() == old(self).spec_as_inner(),
            old(self).spec_owns(*ev) ==> r == Ok::<RawEvent, Error>(
                RawEvent::spec_encode(fd, flags, ctx),
            ) && final(self)@ == old(self)@.update(
                ev.index as int,
                old(self)@[ev.index as int].rebound(fd, flags, ctx),
            ),
            !old(self).spec_owns(*ev) ==> r == Err::<RawEvent, Error>(Error::UnknownEvent)
                && final(self)@ == old(self)@,
    {
        if ev.index < self.events.len() {
            let before: EventRecord = self.events[ev.index];
            proof {
                use_type_invariant(&*self);
            }
            let mut events: Vec<EventRecord> = Vec::new();
            std::mem::swap(&mut events, &mut self.events);
            events.set(
                ev.index,
                EventRecord { fd, flags, ctx, armed: before.armed, timeout: before.timeout },
            );
            self.events = events;
            Ok(RawEvent::encode(fd, flags, ctx))
        } else {
            Err(Error::UnknownEvent)
        }
    }

    /// Arms an event for dispatch, with a timeout if one is given. Returns
    /// the timeout argument of the native call, or `UnknownEvent` for a
    /// handle that names no event of this base, which changes nothing.
    pub fn event_add(&mut self, ev: &EventHandle, timeout: Option<Duration>) -> (r: Result<
        Option<Timeval>,
        Error,
    >)
        ensures
            final(self).spec_as_inner() == old(self).spec_as_inner(),
            old(self).spec_owns(*ev) ==> r == Ok::<Option<Timeval>, Error>(
                spec_timeout_arg(timeout),
            ) && final(self)@ == old(self)@.update(
                ev.index as int,
                old(self)@[ev.index as int].added(spec_timeout_arg(timeout)),
            ),
            !old(self).spec_owns(*ev) ==> r == Err::<Option<Timeval>, Error>(
                Error::UnknownEvent,
            ) && final(self)@ == old(self)@,
    {
        if ev.index < self.events.len() {
            let before: EventRecord = self.events[ev.index];
            let arg: Option<Timeval> = match timeout {
                Some(d) => Some(Timeval::from_duration(&d)),
                None => None,
            };
            proof {
                use_type_invariant(&*self);
            }
            let mut events: Vec<EventRecord> = Vec::new();
            std::mem::swap(&mut events, &mut self.events);
            events.set(
                ev.index,
                EventRecord {
                    fd: before.fd,
                    flags: before.flags,
                    ctx: before.ctx,
                    armed: true,
                    timeout: arg,
                },
            );
            self.events = events;
            Ok(arg)
        } else {
            Err(Error::UnknownEvent)
        }
    }

    /// The argument of the native call that asks the loop to stop after
    /// `timeout`.
    pub fn loopexit(&self, timeout: Duration) -> (tv: Timeval)
        ensures
            tv == Timeval::spec_from_duration(timeout),
            tv.wf(),
    {
        Timeval::from_duration(&timeout)
    }

    /// The mode word of the native call that runs one dispatch pass.
    pub fn loop_(&self, flags: LoopFlags) -> (mode: i32)
        ensures
            mode == flags.spec_bits(),
    {
        flags.bits()
    }

    /// The outcome of a dispatch pass that returned `code`, where
    /// `got_exit` is what the reactor answers when asked whether the pass
    /// ended on a requested exit (zero for no).
    pub fn loop_outcome(&self, code: i32, got_exit: i32) -> (reason: ExitReason)
        ensures
            reason == ExitReason::spec_from_loop(code, got_exit != 0),
    {
        ExitReason::from_loop(code, got_exit != 0)
    }
}

} // verus!
