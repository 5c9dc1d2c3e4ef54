//! Typed views of the reactor's flag words and loop outcomes.

use vstd::prelude::*;

verus! {

/// Wire value: the event became active because its timeout elapsed.
pub const EV_TIMEOUT: u32 = 0x01;

/// Wire value: the descriptor is ready for reading.
pub const EV_READ: u32 = 0x02;

/// Wire value: the descriptor is ready for writing.
pub const EV_WRITE: u32 = 0x04;

/// Wire value: a signal was caught.
pub const EV_SIGNAL: u32 = 0x08;

/// Wire value: the event re-arms after each fire.
pub const EV_PERSIST: u32 = 0x10;

/// Wire value: edge-triggered readiness.
pub const EV_ET: u32 = 0x20;

/// Wire value: finalization may be deferred.
pub const EV_FINALIZE: u32 = 0x40;

/// Wire value: the peer closed the connection.
pub const EV_CLOSED: u32 = 0x80;

/// Every bit that has a meaning in an event flag word.
pub const EV_ALL: u32 = 0xff;

/// Loop mode word: plain blocking loop.
pub const EVLOOP_EMPTY: i32 = 0x00;

/// Loop mode word: block until events are active, run them, return.
pub const EVLOOP_ONCE: i32 = 0x01;

/// Loop mode word: run what is ready now, never block.
pub const EVLOOP_NONBLOCK: i32 = 0x02;

/// One named bit of an event flag word.
#[derive(Clone, Copy, Debug, PartialEq, Eq, Structural)]
pub enum EventFlag {
    Timeout,
    Read,
    Write,
    Signal,
    Persist,
    EdgeTriggered,
    Finalize,
    Closed,
}

impl EventFlag {
    /// The bit this flag occupies on the wire.
    pub open spec fn spec_mask(self) -> u32 {
        match self {
            EventFlag::Timeout => EV_TIMEOUT,
            EventFlag::Read => EV_READ,
            EventFlag::Write => EV_WRITE,
            EventFlag::Signal => EV_SIGNAL,
            EventFlag::Persist => EV_PERSIST,
            EventFlag::EdgeTriggered => EV_ET,
            EventFlag::Finalize => EV_FINALIZE,
            EventFlag::Closed => EV_CLOSED,
        }
    }

    /// The bit this flag occupies on the wire.
    #[verifier::when_used_as_spec(spec_mask)]
    pub fn mask(self) -> (m: u32)
        ensures
            m == self.spec_mask(),
    {
        match self {
            EventFlag::Timeout => EV_TIMEOUT,
            EventFlag::Read => EV_READ,
            EventFlag::Write => EV_WRITE,
            EventFlag::Signal => EV_SIGNAL,
            EventFlag::Persist => EV_PERSIST,
            EventFlag::EdgeTriggered => EV_ET,
            EventFlag::Finalize => EV_FINALIZE,
            EventFlag::Closed => EV_CLOSED,
        }
    }
}

/// A set of event flags, stored as the reactor's own flag word.
///
/// The view of a value is that word. Only bits of `EV_ALL` are ever set.
#[derive(Clone, Copy, Debug, PartialEq, Eq, Structural)]
pub struct EventFlags {
    bits: u32,
}

impl View for EventFlags {
    type V = u32;

    closed spec fn view(&self) -> u32 {
        self.bits
    }
}

impl EventFlags {
    /// No bit outside `EV_ALL` is set.
    #[verifier::type_invariant]
    pub open spec fn wf(self) -> bool {
        self@ <= EV_ALL
    }

    /// Whether `flag` is a member of the set.
    pub open spec fn spec_has(self, flag: EventFlag) -> bool {
        self@ & flag.mask() != 0
    }

    /// Whether every flag of `other` is a member of the set.
    pub open spec fn spec_contains(self, other: EventFlags) -> bool {
        self@ & other@ == other@
    }

    /// The flag word as it travels in the reactor's `short` argument.
    pub open spec fn spec_to_wire(self) -> i16 {
        self@ as i16
    }

    /// The set whose word is `raw` with every unknown bit cleared.
    pub closed spec fn spec_from_bits_truncate(raw: u32) -> EventFlags {
        EventFlags { bits: raw & EV_ALL }
    }

    /// The set that a callback's `short` argument stands for: the low bits
    /// of its two's complement pattern, unknown bits cleared.
    pub open spec fn spec_from_wire(raw: i16) -> EventFlags {
        EventFlags::spec_from_bits_truncate(raw as u32)
    }

    /// The set with no flag.
    pub closed spec fn spec_empty() -> EventFlags {
        EventFlags { bits: 0 }
    }

    /// The set that holds `flag` alone.
    pub closed spec fn spec_only(flag: EventFlag) -> EventFlags {
        EventFlags { bits: flag.mask() }
    }

    /// The set with no flag.
    #[verifier::when_used_as_spec(spec_empty)]
    pub fn empty() -> (f: EventFlags)
        ensures
            f == EventFlags::spec_empty(),
            f@ == 0,
    {
        EventFlags { bits: 0 }
    }

    /// The set that holds `flag` alone.
    #[verifier::when_used_as_spec(spec_only)]
    pub fn only(flag: EventFlag) -> (f: EventFlags)
        ensures
            f == EventFlags::spec_only(flag),
            f@ == flag.mask(),
    {
        EventFlags { bits: flag.mask() }
    }

    /// The set whose word is `raw` with every unknown bit cleared.
    #[verifier::when_used_as_spec(spec_from_bits_truncate)]
    pub fn from_bits_truncate(raw: u32) -> (f: EventFlags)
        ensures
            f == EventFlags::spec_from_bits_truncate(raw),
            f@ == raw & EV_ALL,
    {
        assert(raw & EV_ALL <= EV_ALL) by (bit_vector);
        EventFlags { bits: raw & EV_ALL }
    }

    /// The flag word.
    pub fn bits(self) -> (b: u32)
        ensures
            b == self@,
            b <= EV_ALL,
    {
        proof {
            use_type_invariant(&self);
        }
        self.bits
    }

    /// Whether `flag` is a member of the set.
    #[verifier::when_used_as_spec(spec_has)]
    pub fn has(self, flag: EventFlag) -> (r: bool)
        ensures
            r == self.spec_has(flag),
    {
        self.bits & flag.mask() != 0
    }

    /// Whether every flag of `other` is a member of the set.
    #[verifier::when_used_as_spec(spec_contains)]
    pub fn contains(self, other: EventFlags) -> (r: bool)
        ensures
            r == self.spec_contains(other),
    {
        self.bits & other.bits == other.bits
    }

    /// Whether the set holds no flag.
    pub fn is_empty(self) -> (r: bool)
        ensures
            r == (self@ == 0),
    {
        self.bits == 0
    }

    /// The set that holds the flags of both.
    pub fn union(self, other: EventFlags) -> (f: EventFlags)
        ensures
            f@ == self@ | other@,
    {
        proof {
            use_type_invariant(&self);
            use_type_invariant(&other);
        }
        let a: u32 = self.bits;
        let b: u32 = other.bits;
        assert(a | b <= 0xff) by (bit_vector)
            requires
                a <= 0xff,
                b <= 0xff,
        ;
        EventFlags { bits: a | b }
    }

    /// The flag word as it travels in the reactor's `short` argument.
    #[verifier::when_used_as_spec(spec_to_wire)]
    pub fn to_wire(self) -> (w: i16)
        ensures
            w == self.spec_to_wire(),
            w == self@,
    {
        proof {
            use_type_invariant(&self);
        }
        let b: u32 = self.bits;
        assert(b as i16 == b) by (bit_vector)
            requires
                b <= 0xff,
        ;
        b as i16
    }

    /// Decodes the `short` the reactor hands to a callback: the low bits of
    /// its two's complement pattern, unknown bits cleared.
    #[verifier::when_used_as_spec(spec_from_wire)]
    pub fn from_wire(raw: i16) -> (f: EventFlags)
        ensures
            f == EventFlags::spec_from_wire(raw),
            f@ == (raw as u32) & EV_ALL,
    {
        EventFlags::from_bits_truncate(#[verifier::truncate] (raw as u32))
    }

    /// The named sets are valid, and their words are what their names say.
    pub proof fn lemma_named_sets(flag: EventFlag)
        ensures
            EventFlags::spec_empty().wf(),
            EventFlags::spec_empty()@ == 0,
            EventFlags::spec_only(flag).wf(),
            EventFlags::spec_only(flag)@ == flag.mask(),
            EventFlags::spec_only(flag).has(flag),
            forall|other: EventFlag| !EventFlags::spec_empty().has(other),
            forall|other: EventFlag| other != flag ==> !EventFlags::spec_only(flag).has(other),
    {
        assert forall|other: EventFlag| !EventFlags::spec_empty().has(other) by {
            let m: u32 = other.mask();
            assert(0u32 & m == 0) by (bit_vector);
        }
        let f: u32 = flag.mask();
        assert(f & f != 0) by (bit_vector)
            requires
                f == 0x01 || f == 0x02 || f == 0x04 || f == 0x08 || f == 0x10 || f == 0x20 || f
                    == 0x40 || f == 0x80,
        ;
        assert forall|other: EventFlag| other != flag implies !EventFlags::spec_only(flag).has(
            other,
        ) by {
            let m: u32 = other.mask();
            assert(f & m == 0) by (bit_vector)
                requires
                    f == 0x01 || f == 0x02 || f == 0x04 || f == 0x08 || f == 0x10 || f == 0x20
                        || f == 0x40 || f == 0x80,
                    m == 0x01 || m == 0x02 || m == 0x04 || m == 0x08 || m == 0x10 || m == 0x20
                        || m == 0x40 || m == 0x80,
                    f != m,
            ;
        }
    }

    /// Truncation yields a valid set whose word is the known bits of `raw`.
    pub proof fn lemma_from_bits_truncate(raw: u32)
        ensures
            EventFlags::spec_from_bits_truncate(raw).wf(),
            EventFlags::spec_from_bits_truncate(raw)@ == raw & EV_ALL,
    {
        assert(raw & EV_ALL <= EV_ALL) by (bit_vector);
    }

    /// Encoding a set for the reactor and decoding what comes back yields
    /// the set itself.
    pub proof fn lemma_wire_round_trip(self)
        requires
            self.wf(),
        ensures
            EventFlags::spec_from_wire(self.spec_to_wire()) == self,
            self.spec_to_wire() == self@,
    {
        let b: u32 = self.bits;
        EventFlags::lemma_from_bits_truncate((b as i16) as u32);
        assert(((b as i16) as u32) & 0xff == b && (b as i16) == b) by (bit_vector)
            requires
                b <= 0xff,
        ;
    }

    /// A set that holds `Persist` still holds it after it went to the
    /// reactor as a flag word and was decoded from that word again.
    pub proof fn lemma_persist_survives_wire(self)
        requires
            self.wf(),
            self.has(EventFlag::Persist),
        ensures
            EventFlags::spec_from_wire(self.spec_to_wire()).has(EventFlag::Persist),
    {
        self.lemma_wire_round_trip();
    }
}

/// How one dispatch pass of the reactor behaves.
#[derive(Clone, Copy, Debug, PartialEq, Eq, Structural)]
pub enum LoopFlags {
    /// Keep dispatching until no event is left or an exit is requested.
    Empty,
    /// Block until events are active, run their callbacks, then return.
    Once,
    /// Run the callbacks of what is ready now and return without blocking.
    Nonblock,
}

impl LoopFlags {
    /// The mode word the reactor takes for this mode.
    pub open spec fn spec_bits(self) -> i32 {
        match self {
            LoopFlags::Empty => EVLOOP_EMPTY,
            LoopFlags::Once => EVLOOP_ONCE,
            LoopFlags::Nonblock => EVLOOP_NONBLOCK,
        }
    }

    /// The mode word the reactor takes for this mode.
    #[verifier::when_used_as_spec(spec_bits)]
    pub fn bits(self) -> (b: i32)
        ensures
            b == self.spec_bits(),
    {
        match self {
            LoopFlags::Empty => EVLOOP_EMPTY,
            LoopFlags::Once => EVLOOP_ONCE,
            LoopFlags::Nonblock => EVLOOP_NONBLOCK,
        }
    }
}

/// Outcome of one loop-turn call.
#[derive(Clone, Copy, Debug, PartialEq, Eq, Structural)]
pub enum ExitReason {
    /// The pass ended by itself.
    Exited,
    /// The pass ended because an exit had been requested.
    GotExit,
    /// Nothing was pending or active, so the pass had nothing to wait for.
    NoEventsPending,
    /// The exit deadline could not be scheduled, or the pass itself failed.
    Error,
}

impl ExitReason {
    /// The outcome that a pass's result code stands for. `got_exit` says
    /// whether the reactor reports that the pass ended on a requested exit.
    pub open spec fn spec_from_loop(code: i32, got_exit: bool) -> ExitReason {
        if code == 0 {
            if got_exit {
                ExitReason::GotExit
            } else {
                ExitReason::Exited
            }
        } else if code == 1 {
            ExitReason::NoEventsPending
        } else {
            ExitReason::Error
        }
    }

    /// The outcome that a pass's result code stands for. `got_exit` says
    /// whether the reactor reports that the pass ended on a requested exit.
    #[verifier::when_used_as_spec(spec_from_loop)]
    pub fn from_loop(code: i32, got_exit: bool) -> (reason: ExitReason)
        ensures
            reason == ExitReason::spec_from_loop(code, got_exit),
    {
        if code == 0 {
            if got_exit {
                ExitReason::GotExit
            } else {
                ExitReason::Exited
            }
        } else if code == 1 {
            ExitReason::NoEventsPending
        } else {
            ExitReason::Error
        }
    }
}

} // verus!
