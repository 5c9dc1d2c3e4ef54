//! The model of the facade: the ledger of events, the registry of callback
//! wrappers, and the phase of the loop-turn call in progress. Every
//! operation of the facade is a transition of this model, and what holds of
//! all reachable states is proved here.

use crate::event::{EventCallbackCtx, EventHandle, EventRecord, NO_CONTEXT};
use crate::flags::{EventFlag, EventFlags, ExitReason, LoopFlags};
use crate::time::Timeval;
use vstd::prelude::*;

verus! {

/// Where a loop-turn call stands.
#[derive(Clone, Copy, Debug, PartialEq, Eq, Structural)]
pub enum LoopPhase {
    /// No call is in progress.
    Idle,
    /// An exit deadline went to the reactor and its status is awaited; the
    /// pass that follows runs in this mode.
    Scheduling(LoopFlags),
    /// A dispatch pass in this mode is under way.
    Running(LoopFlags),
}

/// What the driver does next for the loop-turn call in progress.
#[derive(Clone, Copy, Debug, PartialEq, Eq, Structural)]
pub enum LoopStep {
    /// Ask the reactor to stop its loop after this span, then report the
    /// status of that request.
    ScheduleExit(Timeval),
    /// Run one dispatch pass with this mode word, then report its result.
    Dispatch(i32),
    /// The call is over, with this outcome.
    Finished(ExitReason),
}

/// The registry's record of one callback: the event it belongs to and how
/// often it has been delivered. The closure itself stays with the driver,
/// filed under the same slot.
#[derive(Clone, Copy, Debug, PartialEq, Eq, Structural)]
pub struct CallbackWrapper {
    /// The event this callback is bound to.
    pub ev: EventHandle,
    /// Deliveries so far; the count stops at `u64::MAX`.
    pub fired: u64,
}

/// What the trampoline hands to a callback.
#[derive(Clone, Copy, Debug, PartialEq, Eq, Structural)]
pub struct Delivery {
    /// The event that fired.
    pub handle: EventHandle,
    /// What the reactor reported of it.
    pub flags: EventFlags,
}

/// The context word that addresses registry slot `slot`.
pub open spec fn spec_context_of(slot: usize) -> EventCallbackCtx {
    (slot + 1) as usize
}

/// The registry slot that a context word addresses, if it addresses any.
pub open spec fn spec_slot_of(ctx: EventCallbackCtx) -> Option<usize> {
    if ctx == NO_CONTEXT {
        None
    } else {
        Some((ctx - 1) as usize)
    }
}

/// A delivery count one higher, unless the count is at its limit.
pub open spec fn spec_bump(fired: u64) -> u64 {
    if fired < u64::MAX {
        (fired + 1) as u64
    } else {
        fired
    }
}

/// The context word that addresses registry slot `slot`; none for the one
/// slot number that has no word.
pub fn context_of(slot: usize) -> (ctx: Option<EventCallbackCtx>)
    ensures
        slot < usize::MAX ==> ctx == Some(spec_context_of(slot)),
        slot == usize::MAX ==> ctx is None,
        ctx matches Some(word) ==> word != NO_CONTEXT && spec_slot_of(word) == Some(slot),
{
    if slot < usize::MAX {
        Some(slot + 1)
    } else {
        None
    }
}

/// The registry slot that a context word addresses, if it addresses any.
#[verifier::when_used_as_spec(spec_slot_of)]
pub fn slot_of(ctx: EventCallbackCtx) -> (slot: Option<usize>)
    ensures
        slot == spec_slot_of(ctx),
{
    if ctx == NO_CONTEXT {
        None
    } else {
        Some(ctx - 1)
    }
}

/// The state of a facade.
pub struct State {
    /// The base's ledger.
    pub events: Seq<EventRecord>,
    /// The registry of callback wrappers, by slot.
    pub callbacks: Seq<CallbackWrapper>,
    /// The loop-turn call in progress.
    pub phase: LoopPhase,
}

/// One operation on a facade, as the model sees it.
pub enum Op {
    /// Register a timer with this timeout and these flags.
    AddTimer { timeout: Timeval, flags: EventFlags },
    /// Begin a loop-turn call: with an exit deadline or without, and the
    /// mode of its pass.
    Start { exit_after: Option<Timeval>, mode: LoopFlags },
    /// The reactor answered the request for an exit deadline.
    ExitScheduled { status: i32 },
    /// The reactor's dispatch pass returned.
    PassFinished,
    /// The reactor invoked the trampoline with this context word.
    Callback { ctx: EventCallbackCtx },
}

impl State {
    /// The state of a facade that has registered nothing on a base with
    /// this ledger.
    pub open spec fn initial(events: Seq<EventRecord>) -> State {
        State { events, callbacks: Seq::empty(), phase: LoopPhase::Idle }
    }

    /// The record of the event that slot `slot` is bound to.
    pub open spec fn event_of(self, slot: int) -> EventRecord {
        self.events[self.callbacks[slot].ev.index as int]
    }

    /// Slot `slot` and its event refer to each other: the wrapper names an
    /// event of the ledger, and that event's context addresses the slot.
    pub open spec fn bound(self, slot: int) -> bool {
        &&& self.callbacks[slot].ev.index < self.events.len()
        &&& self.event_of(slot).ctx == Some(spec_context_of(slot as usize))
    }

    /// Whether the registration in slot `slot` re-arms after each fire.
    pub open spec fn persistent(self, slot: int) -> bool {
        self.event_of(slot).flags.has(EventFlag::Persist)
    }

    /// A registration that does not re-arm has been delivered at most once.
    pub open spec fn within_budget(self, slot: int) -> bool {
        self.persistent(slot) || self.callbacks[slot].fired <= 1
    }

    /// What holds of every state a facade can reach.
    pub open spec fn wf(self) -> bool {
        &&& self.events.len() <= usize::MAX
        &&& self.callbacks.len() <= usize::MAX
        &&& forall|slot: int| 0 <= slot < self.callbacks.len() ==> #[trigger] self.bound(slot)
        &&& forall|slot: int|
            0 <= slot < self.callbacks.len() ==> #[trigger] self.within_budget(slot)
    }

    /// Whether one more event and one more callback can be numbered.
    pub open spec fn has_room(self) -> bool {
        self.events.len() < usize::MAX && self.callbacks.len() < usize::MAX
    }

    /// The state after a timer was registered: a new event, bound to a new
    /// wrapper in the next free slot and armed with `timeout`. Without room
    /// nothing changes.
    pub open spec fn after_add_timer(self, timeout: Timeval, flags: EventFlags) -> State {
        if self.has_room() {
            State {
                events: self.events.push(
                    EventRecord {
                        fd: None,
                        flags,
                        ctx: Some(spec_context_of(self.callbacks.len() as usize)),
                        armed: true,
                        timeout: Some(timeout),
                    },
                ),
                callbacks: self.callbacks.push(
                    CallbackWrapper {
                        ev: EventHandle { index: self.events.len() as usize },
                        fired: 0,
                    },
                ),
                phase: self.phase,
            }
        } else {
            self
        }
    }

    /// Whether `ctx` addresses a slot of the registry.
    pub open spec fn addressed(self, ctx: EventCallbackCtx) -> bool {
        ctx != NO_CONTEXT && ctx - 1 < self.callbacks.len()
    }

    /// Whether a trampoline invocation with `ctx` reaches its callback: a
    /// pass is under way, the word addresses a wrapper, its event is armed,
    /// and the registration re-arms or has not fired yet.
    pub open spec fn delivers(self, ctx: EventCallbackCtx) -> bool {
        &&& self.phase is Running
        &&& self.addressed(ctx)
        &&& self.event_of(ctx - 1).armed
        &&& (self.persistent(ctx - 1) || self.callbacks[ctx - 1].fired == 0)
    }

    /// What a trampoline invocation hands to the callback, if it reaches
    /// one: a fresh handle to the wrapper's event and the decoded flags.
    pub open spec fn delivery(self, events: i16, ctx: EventCallbackCtx) -> Option<Delivery> {
        if self.delivers(ctx) {
            Some(
                Delivery {
                    handle: self.callbacks[ctx - 1].ev,
                    flags: EventFlags::spec_from_wire(events),
                },
            )
        } else {
            None
        }
    }

    /// The state after a trampoline invocation with `ctx`: a delivery is
    /// counted in its slot, anything else changes nothing.
    pub open spec fn after_callback(self, ctx: EventCallbackCtx) -> State {
        if self.delivers(ctx) {
            State {
                events: self.events,
                callbacks: self.callbacks.update(
                    ctx - 1,
                    CallbackWrapper {
                        ev: self.callbacks[ctx - 1].ev,
                        fired: spec_bump(self.callbacks[ctx - 1].fired),
                    },
                ),
                phase: self.phase,
            }
        } else {
            self
        }
    }

    /// The same state in another phase.
    pub open spec fn in_phase(self, phase: LoopPhase) -> State {
        State { events: self.events, callbacks: self.callbacks, phase }
    }

    /// The state after a loop-turn call began. A call begins from `Idle`
    /// only; in any other phase nothing changes.
    pub open spec fn after_start(self, exit_after: Option<Timeval>, flags: LoopFlags) -> State {
        if self.phase is Idle {
            match exit_after {
                Some(_) => self.in_phase(LoopPhase::Scheduling(flags)),
                None => self.in_phase(LoopPhase::Running(flags)),
            }
        } else {
            self
        }
    }

    /// What the driver does first for a loop-turn call: schedule the exit
    /// deadline if there is one, else run the pass. A call that does not
    /// begin from `Idle` is over at once, as a failure.
    pub open spec fn start_step(self, exit_after: Option<Timeval>, flags: LoopFlags) -> LoopStep {
        if self.phase is Idle {
            match exit_after {
                Some(span) => LoopStep::ScheduleExit(span),
                None => LoopStep::Dispatch(flags.spec_bits()),
            }
        } else {
            LoopStep::Finished(ExitReason::Error)
        }
    }

    /// The state after the reactor answered the request for an exit
    /// deadline: the pass begins on status zero, the call is over on any
    /// other. Outside `Scheduling` nothing changes.
    pub open spec fn after_exit_scheduled(self, status: i32) -> State {
        match self.phase {
            LoopPhase::Scheduling(flags) => if status == 0 {
                self.in_phase(LoopPhase::Running(flags))
            } else {
                self.in_phase(LoopPhase::Idle)
            },
            _ => self,
        }
    }

    /// What the driver does after the reactor answered the request for an
    /// exit deadline.
    pub open spec fn exit_scheduled_step(self, status: i32) -> LoopStep {
        match self.phase {
            LoopPhase::Scheduling(flags) => if status == 0 {
                LoopStep::Dispatch(flags.spec_bits())
            } else {
                LoopStep::Finished(ExitReason::Error)
            },
            _ => LoopStep::Finished(ExitReason::Error),
        }
    }

    /// The state after the reactor's pass returned: `Idle` again. Outside
    /// `Running` nothing changes.
    pub open spec fn after_pass_finished(self) -> State {
        if self.phase is Running {
            self.in_phase(LoopPhase::Idle)
        } else {
            self
        }
    }

    /// The outcome of the loop-turn call whose pass returned `code`.
    /// Outside `Running` there is no pass to have an outcome.
    pub open spec fn pass_outcome(self, code: i32, got_exit: i32) -> ExitReason {
        if self.phase is Running {
            ExitReason::spec_from_loop(code, got_exit != 0)
        } else {
            ExitReason::Error
        }
    }

    /// The state after one operation.
    pub open spec fn apply(self, op: Op) -> State {
        match op {
            Op::AddTimer { timeout, flags } => self.after_add_timer(timeout, flags),
            Op::Start { exit_after, mode } => self.after_start(exit_after, mode),
            Op::ExitScheduled { status } => self.after_exit_scheduled(status),
            Op::PassFinished => self.after_pass_finished(),
            Op::Callback { ctx } => self.after_callback(ctx),
        }
    }

    /// The state after a sequence of operations, first to last.
    pub open spec fn apply_all(self, ops: Seq<Op>) -> State
        decreases ops.len(),
    {
        if ops.len() == 0 {
            self
        } else {
            self.apply_all(ops.drop_last()).apply(ops.last())
        }
    }

    /// A change of phase keeps a state well formed.
    pub proof fn lemma_in_phase_wf(self, phase: LoopPhase)
        requires
            self.wf(),
        ensures
            self.in_phase(phase).wf(),
    {
        let next = self.in_phase(phase);
        assert forall|slot: int| 0 <= slot < next.callbacks.len() implies #[trigger] next.bound(
            slot,
        ) by {
            assert(self.bound(slot));
        }
        assert forall|slot: int|
            0 <= slot < next.callbacks.len() implies #[trigger] next.within_budget(slot) by {
            assert(self.within_budget(slot));
        }
    }

    /// Registering a timer keeps a state well formed.
    pub proof fn lemma_after_add_timer_wf(self, timeout: Timeval, flags: EventFlags)
        requires
            self.wf(),
        ensures
            self.after_add_timer(timeout, flags).wf(),
    {
        let next = self.after_add_timer(timeout, flags);
        if self.has_room() {
            assert forall|slot: int| 0 <= slot < next.callbacks.len() implies #[trigger] next.bound(
                slot,
            ) by {
                if slot < self.callbacks.len() {
                    assert(self.bound(slot));
                }
            }
            assert forall|slot: int|
                0 <= slot < next.callbacks.len() implies #[trigger] next.within_budget(slot) by {
                if slot < self.callbacks.len() {
                    assert(self.bound(slot));
                    assert(self.within_budget(slot));
                }
            }
        }
    }

    /// A trampoline invocation keeps a state well formed.
    pub proof fn lemma_after_callback_wf(self, ctx: EventCallbackCtx)
        requires
            self.wf(),
        ensures
            self.after_callback(ctx).wf(),
    {
        let next = self.after_callback(ctx);
        if self.delivers(ctx) {
            assert forall|slot: int| 0 <= slot < next.callbacks.len() implies #[trigger] next.bound(
                slot,
            ) by {
                assert(self.bound(slot));
            }
            assert forall|slot: int|
                0 <= slot < next.callbacks.len() implies #[trigger] next.within_budget(slot) by {
                assert(self.within_budget(slot));
            }
        }
    }

    /// Every operation keeps a state well formed.
    pub proof fn lemma_apply_wf(self, op: Op)
        requires
            self.wf(),
        ensures
            self.apply(op).wf(),
    {
        match op {
            Op::AddTimer { timeout, flags } => self.lemma_after_add_timer_wf(timeout, flags),
            Op::Start { exit_after, mode } => {
                self.lemma_in_phase_wf(LoopPhase::Scheduling(mode));
                self.lemma_in_phase_wf(LoopPhase::Running(mode));
            },
            Op::ExitScheduled { status } => {
                self.lemma_in_phase_wf(LoopPhase::Idle);
                if let LoopPhase::Scheduling(mode) = self.phase {
                    self.lemma_in_phase_wf(LoopPhase::Running(mode));
                }
            },
            Op::PassFinished => self.lemma_in_phase_wf(LoopPhase::Idle),
            Op::Callback { ctx } => self.lemma_after_callback_wf(ctx),
        }
    }

    /// Whether `later` still holds everything this state holds: each event
    /// as it was recorded, each wrapper on its event, and no delivery count
    /// lower than it was.
    pub open spec fn extended_by(self, later: State) -> bool {
        &&& self.events.len() <= later.events.len()
        &&& self.callbacks.len() <= later.callbacks.len()
        &&& forall|e: int| 0 <= e < self.events.len() ==> #[trigger] later.events[e] == self.events[e]
        &&& forall|slot: int|
            0 <= slot < self.callbacks.len() ==> (#[trigger] later.callbacks[slot]).ev
                == self.callbacks[slot].ev
        &&& forall|slot: int|
            0 <= slot < self.callbacks.len() ==> (#[trigger] later.callbacks[slot]).fired
                >= self.callbacks[slot].fired
    }

    /// How many of `ops` were trampoline invocations with `ctx` during a
    /// dispatch pass.
    pub open spec fn invocations(self, ops: Seq<Op>, ctx: EventCallbackCtx) -> nat
        decreases ops.len(),
    {
        if ops.len() == 0 {
            0
        } else {
            let before = self.apply_all(ops.drop_last());
            let here: nat = if ops.last() == (Op::Callback { ctx }) && before.phase is Running {
                1
            } else {
                0
            };
            self.invocations(ops.drop_last(), ctx) + here
        }
    }

    /// How many of `ops` were trampoline invocations with `ctx` that
    /// reached the callback.
    pub open spec fn deliveries(self, ops: Seq<Op>, ctx: EventCallbackCtx) -> nat
        decreases ops.len(),
    {
        if ops.len() == 0 {
            0
        } else {
            let before = self.apply_all(ops.drop_last());
            let here: nat = if ops.last() == (Op::Callback { ctx }) && before.delivers(ctx) {
                1
            } else {
                0
            };
            self.deliveries(ops.drop_last(), ctx) + here
        }
    }

    /// No operation disturbs what is registered.
    pub proof fn lemma_apply_extends(self, op: Op)
        requires
            self.wf(),
        ensures
            self.apply(op).wf(),
            self.extended_by(self.apply(op)),
    {
        self.lemma_apply_wf(op);
    }

    /// No sequence of operations disturbs what is registered, and every
    /// state on the way is well formed.
    pub proof fn lemma_apply_all_extends(self, ops: Seq<Op>)
        requires
            self.wf(),
        ensures
            self.apply_all(ops).wf(),
            self.extended_by(self.apply_all(ops)),
        decreases ops.len(),
    {
        if ops.len() > 0 {
            let before = self.apply_all(ops.drop_last());
            self.lemma_apply_all_extends(ops.drop_last());
            before.lemma_apply_extends(ops.last());
            let later = before.apply(ops.last());
            assert forall|e: int| 0 <= e < self.events.len() implies #[trigger] later.events[e]
                == self.events[e] by {
                assert(before.events[e] == self.events[e]);
            }
            assert forall|slot: int| 0 <= slot < self.callbacks.len() implies (
            #[trigger] later.callbacks[slot]).ev == self.callbacks[slot].ev by {
                assert(before.callbacks[slot].ev == self.callbacks[slot].ev);
            }
            assert forall|slot: int| 0 <= slot < self.callbacks.len() implies (
            #[trigger] later.callbacks[slot]).fired >= self.callbacks[slot].fired by {
                assert(before.callbacks[slot].fired >= self.callbacks[slot].fired);
            }
        }
    }

    /// A new registration takes the next free slot and is addressed by that
    /// slot's context word; its event is armed with the timeout, nothing
    /// has been delivered to it, and it re-arms exactly if it was
    /// registered with `Persist`.
    pub proof fn lemma_add_timer_registers(self, timeout: Timeval, flags: EventFlags)
        requires
            self.wf(),
            self.has_room(),
        ensures
            ({
                let next = self.after_add_timer(timeout, flags);
                let slot = self.callbacks.len() as int;
                &&& next.addressed(spec_context_of(slot as usize))
                &&& spec_slot_of(spec_context_of(slot as usize)) == Some(slot as usize)
                &&& next.event_of(slot).armed
                &&& next.event_of(slot).timeout == Some(timeout)
                &&& next.callbacks[slot].fired == 0
                &&& next.persistent(slot) == flags.has(EventFlag::Persist)
            }),
    {
    }

    /// What is registered as an interval re-arms; what is registered as a
    /// one-shot does not.
    pub proof fn lemma_interval_persists_oneshot_does_not(self, timeout: Timeval)
        requires
            self.wf(),
            self.has_room(),
        ensures
            self.after_add_timer(timeout, EventFlags::spec_only(EventFlag::Persist)).persistent(
                self.callbacks.len() as int,
            ),
            !self.after_add_timer(timeout, EventFlags::spec_empty()).persistent(
                self.callbacks.len() as int,
            ),
    {
        EventFlags::lemma_named_sets(EventFlag::Persist);
        self.lemma_add_timer_registers(timeout, EventFlags::spec_only(EventFlag::Persist));
        self.lemma_add_timer_registers(timeout, EventFlags::spec_empty());
    }

    /// A registered callback stays what it is: after any operations its
    /// slot is still addressed by the same word, bound to the same event,
    /// and that event is recorded as before.
    pub proof fn lemma_registration_is_stable(self, ops: Seq<Op>, ctx: EventCallbackCtx)
        requires
            self.wf(),
            self.addressed(ctx),
        ensures
            self.apply_all(ops).wf(),
            self.apply_all(ops).addressed(ctx),
            self.apply_all(ops).callbacks[ctx - 1].ev == self.callbacks[ctx - 1].ev,
            self.apply_all(ops).event_of(ctx - 1) == self.event_of(ctx - 1),
            self.apply_all(ops).persistent(ctx - 1) == self.persistent(ctx - 1),
    {
        self.lemma_apply_all_extends(ops);
        let later = self.apply_all(ops);
        assert(self.bound(ctx - 1));
        assert(later.callbacks[ctx - 1].ev == self.callbacks[ctx - 1].ev);
        assert(later.events[self.callbacks[ctx - 1].ev.index as int] == self.events[self.callbacks[ctx
            - 1].ev.index as int]);
    }

    /// A registration that re-arms reaches its callback on every
    /// invocation during a dispatch pass: over any operations, as many
    /// deliveries as invocations, and the next invocation during a pass is
    /// delivered too.
    pub proof fn lemma_persistent_fires_every_time(self, ops: Seq<Op>, ctx: EventCallbackCtx)
        requires
            self.wf(),
            self.addressed(ctx),
            self.persistent(ctx - 1),
            self.event_of(ctx - 1).armed,
        ensures
            self.deliveries(ops, ctx) == self.invocations(ops, ctx),
            self.apply_all(ops).phase is Running ==> self.apply_all(ops).delivers(ctx),
        decreases ops.len(),
    {
        self.lemma_registration_is_stable(ops, ctx);
        if ops.len() > 0 {
            self.lemma_persistent_fires_every_time(ops.drop_last(), ctx);
        }
    }

    /// A registration that does not re-arm reaches its callback at most
    /// once: the deliveries before and the deliveries during any sequence of
    /// operations add up to the count in its slot, which is at most one, and
    /// once that count is one no further invocation is delivered.
    pub proof fn lemma_oneshot_fires_at_most_once(self, ops: Seq<Op>, ctx: EventCallbackCtx)
        requires
            self.wf(),
            self.addressed(ctx),
            !self.persistent(ctx - 1),
        ensures
            self.callbacks[ctx - 1].fired + self.deliveries(ops, ctx) == self.apply_all(
                ops,
            ).callbacks[ctx - 1].fired,
            self.callbacks[ctx - 1].fired + self.deliveries(ops, ctx) <= 1,
            self.apply_all(ops).callbacks[ctx - 1].fired == 1 ==> !self.apply_all(ops).delivers(ctx),
        decreases ops.len(),
    {
        self.lemma_registration_is_stable(ops, ctx);
        let later = self.apply_all(ops);
        assert(later.within_budget(ctx - 1));
        assert(self.within_budget(ctx - 1));
        if ops.len() > 0 {
            let before = self.apply_all(ops.drop_last());
            self.lemma_oneshot_fires_at_most_once(ops.drop_last(), ctx);
            self.lemma_registration_is_stable(ops.drop_last(), ctx);
            before.lemma_apply_extends(ops.last());
            match ops.last() {
                Op::Callback { ctx: word } => {
                    if word != ctx {
                        assert(later.callbacks[ctx - 1] == before.callbacks[ctx - 1]);
                    }
                },
                Op::AddTimer { timeout, flags } => {
                    assert(later.callbacks[ctx - 1] == before.callbacks[ctx - 1]);
                },
                _ => {},
            }
        }
    }

    /// A turn is one pass that cannot block: from `Idle` it asks for a
    /// single pass in non-blocking mode with no deadline before it, reports
    /// `NoEventsPending` when the reactor had nothing, and leaves the
    /// facade as it found it.
    pub proof fn lemma_turn_never_waits(self, got_exit: i32)
        requires
            self.phase is Idle,
        ensures
            self.start_step(None, LoopFlags::Nonblock) == LoopStep::Dispatch(
                crate::flags::EVLOOP_NONBLOCK,
            ),
            self.after_start(None, LoopFlags::Nonblock).phase == LoopPhase::Running(
                LoopFlags::Nonblock,
            ),
            self.after_start(None, LoopFlags::Nonblock).pass_outcome(1, got_exit)
                == ExitReason::NoEventsPending,
            self.after_start(None, LoopFlags::Nonblock).after_pass_finished() == self,
    {
    }

    /// A run with a timeout reaches its pass only behind an accepted exit
    /// deadline of exactly that span: the deadline is asked for first, a
    /// refusal ends the call with `Error` and no pass, an acceptance is
    /// followed by the blocking pass.
    pub proof fn lemma_deadline_precedes_pass(self, span: Timeval, status: i32)
        requires
            self.phase is Idle,
        ensures
            self.start_step(Some(span), LoopFlags::Empty) == LoopStep::ScheduleExit(span),
            !(self.after_start(Some(span), LoopFlags::Empty).phase is Running),
            status != 0 ==> self.after_start(Some(span), LoopFlags::Empty).exit_scheduled_step(
                status,
            ) == LoopStep::Finished(ExitReason::Error) && self.after_start(
                Some(span),
                LoopFlags::Empty,
            ).after_exit_scheduled(status) == self,
            status == 0 ==> self.after_start(Some(span), LoopFlags::Empty).exit_scheduled_step(
                status,
            ) == LoopStep::Dispatch(crate::flags::EVLOOP_EMPTY) && self.after_start(
                Some(span),
                LoopFlags::Empty,
            ).after_exit_scheduled(status).phase == LoopPhase::Running(LoopFlags::Empty),
    {
    }
}

} // verus!
