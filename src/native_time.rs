use vstd::prelude::*;
use crate::duration::WallDuration;
use crate::simulation_time::{in_range, SimulationTime, SIMTIME_MAX};

verus! {

/// A point in time as the platform's `timespec` lays it out: signed seconds and
/// signed nanoseconds, the latter valid only in `[0, 1_000_000_000)`.
#[derive(Copy, Clone, PartialEq, Eq, Structural, Debug)]
pub struct TimeSpec {
    pub tv_sec: i64,
    pub tv_nsec: i64,
}

/// A time interval as the platform's `timeval` lays it out: signed seconds and
/// signed microseconds, the latter valid only in `[0, 1_000_000)`.
#[derive(Copy, Clone, PartialEq, Eq, Structural, Debug)]
pub struct TimeVal {
    pub tv_sec: i64,
    pub tv_usec: i64,
}

/// The simulation time a `TimeSpec` denotes, if its fields are well formed and
/// the value is in range.
pub open spec fn timespec_nanos(v: TimeSpec) -> Option<nat> {
    if v.tv_sec < 0 || v.tv_nsec < 0 || v.tv_nsec >= 1000000000 {
        None
    } else {
        in_range(v.tv_sec * 1000000000 + v.tv_nsec)
    }
}

/// The simulation time a `TimeVal` denotes, if its fields are well formed and
/// the value is in range.
pub open spec fn timeval_nanos(v: TimeVal) -> Option<nat> {
    if v.tv_sec < 0 || v.tv_usec < 0 || v.tv_usec >= 1000000 {
        None
    } else {
        in_range(v.tv_sec * 1000000000 + v.tv_usec * 1000)
    }
}

/// The `TimeSpec` for `n` nanoseconds.
pub open spec fn timespec_of(n: nat) -> TimeSpec {
    TimeSpec { tv_sec: (n / 1000000000) as i64, tv_nsec: (n % 1000000000) as i64 }
}

/// The `TimeVal` for `n` nanoseconds, truncated to whole microseconds.
pub open spec fn timeval_of(n: nat) -> TimeVal {
    TimeVal { tv_sec: (n / 1000000000) as i64, tv_usec: ((n % 1000000000) / 1000) as i64 }
}

impl TimeSpec {
    /// The `TimeSpec` of a simulation time; every valid time has one.
    pub fn try_from_simtime(value: SimulationTime) -> (r: Result<TimeSpec, ()>)
        ensures
            r == Ok::<TimeSpec, ()>(timespec_of(value@)),
    {
        let value = value.to_duration();
        let secs = value.as_secs();
        if secs > i64::MAX as u64 {
            return Err(());
        }
        let tv_sec = secs as i64;
        let tv_nsec = value.subsec_nanos() as i64;
        Ok(TimeSpec { tv_sec, tv_nsec })
    }
}

impl TimeVal {
    /// The `TimeVal` of a simulation time, truncated to whole microseconds;
    /// every valid time has one.
    pub fn try_from_simtime(value: SimulationTime) -> (r: Result<TimeVal, ()>)
        ensures
            r == Ok::<TimeVal, ()>(timeval_of(value@)),
    {
        let value = value.to_duration();
        let secs = value.as_secs();
        if secs > i64::MAX as u64 {
            return Err(());
        }
        let tv_sec = secs as i64;
        let tv_usec = value.subsec_micros() as i64;
        Ok(TimeVal { tv_sec, tv_usec })
    }
}

impl SimulationTime {
    /// The simulation time a `TimeSpec` denotes; fails on a negative field, on
    /// nanoseconds of one second or more, and on a value above `SIMTIME_MAX`.
    pub fn try_from_timespec(value: TimeSpec) -> (r: Result<Self, ()>)
        ensures
            match r {
                Ok(t) => timespec_nanos(value) == Some(t@),
                Err(_) => timespec_nanos(value) is None,
            },
    {
        if value.tv_sec < 0 || value.tv_nsec < 0 || value.tv_nsec > 999_999_999 {
            return Err(());
        }
        let secs = WallDuration::from_secs(value.tv_sec as u64);
        let nanos = WallDuration::from_nanos(value.tv_nsec as u64);
        match secs.checked_add(nanos) {
            Some(d) => Self::try_from_duration(d),
            None => Err(()),
        }
    }

    /// The simulation time a `TimeVal` denotes; fails on a negative field, on
    /// microseconds of one second or more, and on a value above `SIMTIME_MAX`.
    pub fn try_from_timeval(value: TimeVal) -> (r: Result<Self, ()>)
        ensures
            match r {
                Ok(t) => timeval_nanos(value) == Some(t@),
                Err(_) => timeval_nanos(value) is None,
            },
    {
        if value.tv_sec < 0 || value.tv_usec < 0 || value.tv_usec > 999_999 {
            return Err(());
        }
        let secs = WallDuration::from_secs(value.tv_sec as u64);
        let micros = WallDuration::from_micros(value.tv_usec as u64);
        match secs.checked_add(micros) {
            Some(d) => Self::try_from_duration(d),
            None => Err(()),
        }
    }
}

/// A `TimeSpec` with a negative field, or with nanoseconds of one second or
/// more, denotes no time; one with fields in range denotes its total
/// nanoseconds wherever that count is at most `SIMTIME_MAX`.
pub proof fn lemma_timespec_fields(v: TimeSpec)
    ensures
        (v.tv_sec < 0 || v.tv_nsec < 0 || v.tv_nsec >= 1000000000) ==> timespec_nanos(v) is None,
        (0 <= v.tv_sec && 0 <= v.tv_nsec < 1000000000 && v.tv_sec * 1000000000 + v.tv_nsec
            <= SIMTIME_MAX) ==> timespec_nanos(v) == Some((v.tv_sec * 1000000000 + v.tv_nsec) as nat),
{
}

/// A `TimeVal` with a negative field, or with microseconds of one second or
/// more, denotes no time; one with fields in range denotes its total
/// nanoseconds wherever that count is at most `SIMTIME_MAX`.
pub proof fn lemma_timeval_fields(v: TimeVal)
    ensures
        (v.tv_sec < 0 || v.tv_usec < 0 || v.tv_usec >= 1000000) ==> timeval_nanos(v) is None,
        (0 <= v.tv_sec && 0 <= v.tv_usec < 1000000 && v.tv_sec * 1000000000 + v.tv_usec * 1000
            <= SIMTIME_MAX) ==> timeval_nanos(v) == Some(
            (v.tv_sec * 1000000000 + v.tv_usec * 1000) as nat,
        ),
{
}

/// A `TimeSpec` that denotes a time converts back from that time to itself.
pub proof fn lemma_timespec_round_trip(v: TimeSpec)
    requires
        timespec_nanos(v) is Some,
    ensures
        timespec_of(timespec_nanos(v)->Some_0) == v,
{
    let s = v.tv_sec as int;
    let n = v.tv_nsec as int;
    assert((s * 1000000000 + n) / 1000000000 == s) by (nonlinear_arith)
        requires
            0 <= n < 1000000000,
            0 <= s,
    ;
    assert((s * 1000000000 + n) % 1000000000 == n) by (nonlinear_arith)
        requires
            0 <= n < 1000000000,
            0 <= s,
    ;
}

/// A `TimeVal` that denotes a time converts back from that time to itself.
pub proof fn lemma_timeval_round_trip(v: TimeVal)
    requires
        timeval_nanos(v) is Some,
    ensures
        timeval_of(timeval_nanos(v)->Some_0) == v,
{
    let s = v.tv_sec as int;
    let u = v.tv_usec as int;
    assert((s * 1000000000 + u * 1000) / 1000000000 == s) by (nonlinear_arith)
        requires
            0 <= u < 1000000,
            0 <= s,
    ;
    assert((s * 1000000000 + u * 1000) % 1000000000 == u * 1000) by (nonlinear_arith)
        requires
            0 <= u < 1000000,
            0 <= s,
    ;
}

} // verus!
