//! Durations as the reactor takes them: whole seconds and microseconds.

use std::time::Duration;
use vstd::prelude::*;

verus! {

/// Microseconds in one second.
pub const MICROS_PER_SEC: u32 = 1_000_000;

/// The largest number of seconds a `Timeval` can carry.
pub const MAX_SECS: u64 = 0x7fff_ffff_ffff_ffff;

/// The whole seconds that `d` holds, as `Duration::as_secs` reports them.
pub uninterp spec fn duration_secs(d: Duration) -> u64;

/// The fraction of a second that `d` holds beyond its whole seconds, in
/// whole microseconds, as `Duration::subsec_micros` reports it.
pub uninterp spec fn duration_subsec_micros(d: Duration) -> u32;

/// `Duration::as_secs`: the number of whole seconds in the duration. Nothing
/// is claimed of the number beyond its being a function of the duration.
pub assume_specification[ Duration::as_secs ](d: &Duration) -> (secs: u64)
    ensures
        secs == duration_secs(*d),
;

/// `Duration::subsec_micros`: the fractional part of the duration in whole
/// microseconds, which std documents to be less than one million.
pub assume_specification[ Duration::subsec_micros ](d: &Duration) -> (micros: u32)
    ensures
        micros == duration_subsec_micros(*d),
        micros < MICROS_PER_SEC,
;

/// A time span in the reactor's own layout.
#[derive(Clone, Copy, Debug, PartialEq, Eq, Structural)]
pub struct Timeval {
    pub tv_sec: i64,
    pub tv_usec: i64,
}

impl Timeval {
    /// Seconds are not negative and microseconds stay below one second.
    pub open spec fn wf(self) -> bool {
        &&& 0 <= self.tv_sec
        &&& 0 <= self.tv_usec < MICROS_PER_SEC
    }

    /// The span of `secs` seconds and `micros` microseconds. Seconds beyond
    /// `MAX_SECS` saturate there.
    pub open spec fn spec_from_parts(secs: u64, micros: u32) -> Timeval {
        Timeval {
            tv_sec: if secs <= MAX_SECS { secs as i64 } else { MAX_SECS as i64 },
            tv_usec: micros as i64,
        }
    }

    /// The span that `d` stands for.
    pub open spec fn spec_from_duration(d: Duration) -> Timeval {
        Timeval::spec_from_parts(duration_secs(d), duration_subsec_micros(d))
    }

    /// The span of `secs` seconds and `micros` microseconds. Seconds beyond
    /// `MAX_SECS` saturate there.
    pub fn from_parts(secs: u64, micros: u32) -> (tv: Timeval)
        ensures
            tv == Timeval::spec_from_parts(secs, micros),
            micros < MICROS_PER_SEC ==> tv.wf(),
    {
        let tv_sec: i64 = if secs <= MAX_SECS {
            secs as i64
        } else {
            MAX_SECS as i64
        };
        Timeval { tv_sec, tv_usec: micros as i64 }
    }

    /// The span that `d` stands for.
    pub fn from_duration(d: &Duration) -> (tv: Timeval)
        ensures
            tv == Timeval::spec_from_duration(*d),
            tv.wf(),
    {
        Timeval::from_parts(d.as_secs(), d.subsec_micros())
    }
}

} // verus!
