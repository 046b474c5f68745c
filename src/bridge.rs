//! The conversions in the shape a natively compiled caller needs: failures
//! become the invalid raw encoding or a `false` flag, never a panic.

use vstd::prelude::*;
use crate::native_time::{timespec_nanos, timespec_of, timeval_nanos, timeval_of, TimeSpec, TimeVal};
use crate::simulation_time::{decode_raw, encode_raw, SimulationTime};

verus! {

/// The raw encoding of the time a `TimeVal` denotes; the invalid encoding where
/// it denotes none.
pub fn simtime_from_timeval(val: TimeVal) -> (r: u64)
    ensures
        r == encode_raw(timeval_nanos(val)),
{
    SimulationTime::to_c_simtime(SimulationTime::try_from_timeval(val).ok())
}

/// The raw encoding of the time a `TimeSpec` denotes; the invalid encoding where
/// it denotes none.
pub fn simtime_from_timespec(val: TimeSpec) -> (r: u64)
    ensures
        r == encode_raw(timespec_nanos(val)),
{
    SimulationTime::to_c_simtime(SimulationTime::try_from_timespec(val).ok())
}

/// Writes the `TimeVal` of a raw encoding to `out` and returns `true`; returns
/// `false` and leaves `out` as it was where the encoding denotes no time.
#[must_use]
pub fn simtime_to_timeval(val: u64, out: &mut TimeVal) -> (r: bool)
    ensures
        r == decode_raw(val) is Some,
        r ==> *final(out) == timeval_of(decode_raw(val)->Some_0),
        !r ==> *final(out) == *old(out),
{
    let simtime: SimulationTime = if let Some(s) = SimulationTime::from_c_simtime(val) {
        s
    } else {
        return false;
    };
    let tv: TimeVal = if let Ok(tv) = TimeVal::try_from_simtime(simtime) {
        tv
    } else {
        return false;
    };
    *out = tv;
    true
}

/// Writes the `TimeSpec` of a raw encoding to `out` and returns `true`; returns
/// `false` and leaves `out` as it was where the encoding denotes no time.
#[must_use]
pub fn simtime_to_timespec(val: u64, out: &mut TimeSpec) -> (r: bool)
    ensures
        r == decode_raw(val) is Some,
        r ==> *final(out) == timespec_of(decode_raw(val)->Some_0),
        !r ==> *final(out) == *old(out),
{
    let simtime: SimulationTime = if let Some(s) = SimulationTime::from_c_simtime(val) {
        s
    } else {
        return false;
    };
    let ts: TimeSpec = if let Ok(ts) = TimeSpec::try_from_simtime(simtime) {
        ts
    } else {
        return false;
    };
    *out = ts;
    true
}

} // verus!
