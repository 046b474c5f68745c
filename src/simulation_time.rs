use vstd::prelude::*;
use crate::duration::WallDuration;
use vstd::std_specs::ops::{AddSpec, MulSpec};

verus! {

/// Largest value of the emulated wall clock, in nanoseconds since the Unix epoch.
pub const EMUTIME_MAX: u64 = 18446744073709551614;

/// Seconds from the Unix epoch to the start of the simulation (2000-01-01 00:00 UTC).
pub const SIMULATION_START_SEC: u64 = 946684800;

/// Invalid simulation time: the raw encoding of "no value".
pub const SIMTIME_INVALID: u64 = 18446744073709551615;

/// Represents one nanosecond in simulation time.
pub const SIMTIME_ONE_NANOSECOND: u64 = 1;

/// Represents one microsecond in simulation time.
pub const SIMTIME_ONE_MICROSECOND: u64 = 1000;

/// Represents one millisecond in simulation time.
pub const SIMTIME_ONE_MILLISECOND: u64 = 1000000;

/// Represents one second in simulation time.
pub const SIMTIME_ONE_SECOND: u64 = 1000000000;

/// Represents one minute in simulation time.
pub const SIMTIME_ONE_MINUTE: u64 = 60000000000;

/// Represents one hour in simulation time.
pub const SIMTIME_ONE_HOUR: u64 = 3600000000000;

/// Largest valid simulation time: the part of the emulated clock that lies after
/// the simulation start.
pub const SIMTIME_MAX: u64 = EMUTIME_MAX - SIMULATION_START_SEC * SIMTIME_ONE_SECOND;

/// Smallest valid simulation time.
pub const SIMTIME_MIN: u64 = 0;

/// The value denoted by a raw encoding, if it denotes one.
pub open spec fn decode_raw(raw: u64) -> Option<nat> {
    if raw == SIMTIME_INVALID || raw > SIMTIME_MAX {
        None
    } else {
        Some(raw as nat)
    }
}

/// The raw encoding of a value, or of its absence.
pub open spec fn encode_raw(v: Option<nat>) -> u64 {
    match v {
        Some(n) => n as u64,
        None => SIMTIME_INVALID,
    }
}

/// A valid nanosecond count, if `n` is one.
pub open spec fn in_range(n: int) -> Option<nat> {
    if 0 <= n <= SIMTIME_MAX {
        Some(n as nat)
    } else {
        None
    }
}

/// A span of simulated time, counted in nanoseconds from the simulation's origin.
#[derive(Copy, Clone, PartialEq, Eq, Structural, Debug, PartialOrd, Ord)]
pub struct SimulationTime(u64);

/// The nanosecond count held by an optional value.
pub open spec fn opt_view(t: Option<SimulationTime>) -> Option<nat> {
    match t {
        Some(v) => Some(v@),
        None => None,
    }
}

impl SimulationTime {
    #[verifier::type_invariant]
    spec fn inv(self) -> bool {
        self.0 <= SIMTIME_MAX
    }

    /// Nanoseconds since the simulation's origin.
    pub closed spec fn view(self) -> nat {
        self.0 as nat
    }

    /// The largest valid value.
    pub fn max_value() -> (r: Self)
        ensures
            r@ == SIMTIME_MAX,
    {
        Self(SIMTIME_MAX)
    }

    /// Zero.
    pub fn zero() -> (r: Self)
        ensures
            r@ == 0,
    {
        Self(0)
    }

    /// One second.
    pub fn second() -> (r: Self)
        ensures
            r@ == SIMTIME_ONE_SECOND,
    {
        Self(SIMTIME_ONE_SECOND)
    }

    /// One millisecond.
    pub fn millisecond() -> (r: Self)
        ensures
            r@ == SIMTIME_ONE_MILLISECOND,
    {
        Self(SIMTIME_ONE_MILLISECOND)
    }

    /// One microsecond.
    pub fn microsecond() -> (r: Self)
        ensures
            r@ == SIMTIME_ONE_MICROSECOND,
    {
        Self(SIMTIME_ONE_MICROSECOND)
    }

    /// One nanosecond.
    pub fn nanosecond() -> (r: Self)
        ensures
            r@ == SIMTIME_ONE_NANOSECOND,
    {
        Self(SIMTIME_ONE_NANOSECOND)
    }

    /// Decodes a raw value: `None` for the invalid encoding and for anything
    /// above `SIMTIME_MAX`.
    pub fn from_c_simtime(val: u64) -> (r: Option<Self>)
        ensures
            opt_view(r) == decode_raw(val),
    {
        if val == SIMTIME_INVALID {
            return None;
        }
        if val > SIMTIME_MAX {
            return None;
        }
        Some(Self(val / SIMTIME_ONE_NANOSECOND))
    }

    /// Encodes an optional value; `None` becomes `SIMTIME_INVALID`.
    pub fn to_c_simtime(val: Option<Self>) -> (r: u64)
        ensures
            r == encode_raw(opt_view(val)),
    {
        if let Some(val) = val {
            val.0
        } else {
            SIMTIME_INVALID
        }
    }

    /// Whole seconds.
    pub fn as_secs(&self) -> (r: u64)
        ensures
            r == self@ / (SIMTIME_ONE_SECOND as nat),
            r <= SIMTIME_MAX / SIMTIME_ONE_SECOND,
    {
        proof {
            use_type_invariant(self);
        }
        self.0 / SIMTIME_ONE_SECOND
    }

    /// Whole milliseconds.
    pub fn as_millis(&self) -> (r: u64)
        ensures
            r == self@ / (SIMTIME_ONE_MILLISECOND as nat),
            r <= SIMTIME_MAX / SIMTIME_ONE_MILLISECOND,
    {
        proof {
            use_type_invariant(self);
        }
        self.0 / SIMTIME_ONE_MILLISECOND
    }

    /// Whole microseconds.
    pub fn as_micros(&self) -> (r: u64)
        ensures
            r == self@ / (SIMTIME_ONE_MICROSECOND as nat),
            r <= SIMTIME_MAX / SIMTIME_ONE_MICROSECOND,
    {
        proof {
            use_type_invariant(self);
        }
        self.0 / SIMTIME_ONE_MICROSECOND
    }

    /// Whole nanoseconds.
    pub fn as_nanos(&self) -> (r: u128)
        ensures
            r == self@,
            r <= SIMTIME_MAX,
    {
        proof {
            use_type_invariant(self);
        }
        (self.0 / SIMTIME_ONE_NANOSECOND) as u128
    }

    /// The sum, if it is a valid value.
    pub fn checked_add(self, other: Self) -> (r: Option<Self>)
        ensures
            opt_view(r) == in_range(self@ + other@ as int),
    {
        let sum = if let Some(s) = self.0.checked_add(other.0) {
            s
        } else {
            return None;
        };
        SimulationTime::from_c_simtime(sum)
    }

    /// The product with a scalar, if it is a valid value.
    pub fn checked_mul(self, other: u64) -> (r: Option<Self>)
        ensures
            opt_view(r) == in_range(self@ * other as int),
    {
        if let Some(product) = self.0.checked_mul(other) {
            SimulationTime::from_c_simtime(product)
        } else {
            proof {
                assert(self@ * other > u64::MAX);
            }
            None
        }
    }

    /// `s` seconds, if that is a valid value.
    pub fn try_from_secs(s: u64) -> (r: Option<Self>)
        ensures
            opt_view(r) == in_range(s * SIMTIME_ONE_SECOND),
    {
        Self::second().checked_mul(s)
    }

    /// `s` seconds; the caller has shown that this is a valid value.
    pub fn from_secs(s: u64) -> (r: Self)
        requires
            s * SIMTIME_ONE_SECOND <= SIMTIME_MAX,
        ensures
            r@ == s * SIMTIME_ONE_SECOND,
    {
        Self::try_from_secs(s).unwrap()
    }

    /// `s` milliseconds, if that is a valid value.
    pub fn try_from_millis(s: u64) -> (r: Option<Self>)
        ensures
            opt_view(r) == in_range(s * SIMTIME_ONE_MILLISECOND),
    {
        Self::millisecond().checked_mul(s)
    }

    /// `s` milliseconds; the caller has shown that this is a valid value.
    pub fn from_millis(s: u64) -> (r: Self)
        requires
            s * SIMTIME_ONE_MILLISECOND <= SIMTIME_MAX,
        ensures
            r@ == s * SIMTIME_ONE_MILLISECOND,
    {
        Self::try_from_millis(s).unwrap()
    }

    /// `s` microseconds, if that is a valid value.
    pub fn try_from_micros(s: u64) -> (r: Option<Self>)
        ensures
            opt_view(r) == in_range(s * SIMTIME_ONE_MICROSECOND),
    {
        Self::microsecond().checked_mul(s)
    }

    /// `s` microseconds; the caller has shown that this is a valid value.
    pub fn from_micros(s: u64) -> (r: Self)
        requires
            s * SIMTIME_ONE_MICROSECOND <= SIMTIME_MAX,
        ensures
            r@ == s * SIMTIME_ONE_MICROSECOND,
    {
        Self::try_from_micros(s).unwrap()
    }

    /// `s` nanoseconds, if that is a valid value.
    pub fn try_from_nanos(s: u64) -> (r: Option<Self>)
        ensures
            opt_view(r) == in_range(s * SIMTIME_ONE_NANOSECOND),
    {
        Self::nanosecond().checked_mul(s)
    }

    /// `s` nanoseconds; the caller has shown that this is a valid value.
    pub fn from_nanos(s: u64) -> (r: Self)
        requires
            s * SIMTIME_ONE_NANOSECOND <= SIMTIME_MAX,
        ensures
            r@ == s * SIMTIME_ONE_NANOSECOND,
    {
        Self::try_from_nanos(s).unwrap()
    }

    /// Milliseconds past the last whole second.
    pub fn subsec_millis(&self) -> (r: u32)
        ensures
            r == (self@ / (SIMTIME_ONE_MILLISECOND as nat)) % 1000,
    {
        (self.as_millis() % 1000) as u32
    }

    /// Microseconds past the last whole second.
    pub fn subsec_micros(&self) -> (r: u32)
        ensures
            r == (self@ / (SIMTIME_ONE_MICROSECOND as nat)) % 1000000,
    {
        (self.as_micros() % 1000000) as u32
    }

    /// The simulation time of a wall-clock span, unless it exceeds `SIMTIME_MAX`.
    pub fn try_from_duration(val: WallDuration) -> (r: Result<Self, ()>)
        ensures
            match r {
                Ok(t) => val@ <= SIMTIME_MAX && t@ == val@,
                Err(_) => val@ > SIMTIME_MAX,
            },
    {
        let val = val.as_nanos();
        if val > SIMTIME_MAX as u128 {
            Err(())
        } else {
            Ok(Self(val as u64))
        }
    }

    /// The same span as a wall-clock duration; exact.
    pub fn to_duration(self) -> (r: WallDuration)
        ensures
            r@ == self@,
            r@ <= SIMTIME_MAX,
    {
        proof {
            use_type_invariant(self);
        }
        WallDuration::from_nanos(self.0 / SIMTIME_ONE_NANOSECOND)
    }

    /// Nanoseconds past the last whole second.
    pub fn subsec_nanos(&self) -> (r: u32)
        ensures
            r == self@ % (SIMTIME_ONE_SECOND as nat),
    {
        (self.as_nanos() % 1000000000) as u32
    }
}

/// Addition whose operands the caller has shown to sum to a valid value;
/// `checked_add` is the form that reports overflow.
impl std::ops::Add<SimulationTime> for SimulationTime {
    type Output = SimulationTime;

    fn add(self, other: Self) -> (r: Self::Output) {
        self.checked_add(other).unwrap()
    }
}

impl vstd::std_specs::ops::AddSpecImpl<SimulationTime> for SimulationTime {
    open spec fn obeys_add_spec() -> bool {
        true
    }

    open spec fn add_req(self, other: SimulationTime) -> bool {
        self@ + other@ <= SIMTIME_MAX
    }

    closed spec fn add_spec(self, other: SimulationTime) -> SimulationTime {
        SimulationTime((self.0 + other.0) as u64)
    }
}

/// What `+` returns: the sum of the counts.
pub proof fn lemma_add_spec(a: SimulationTime, b: SimulationTime)
    requires
        a@ + b@ <= SIMTIME_MAX,
    ensures
        a.add_spec(b)@ == a@ + b@,
{
}

/// Multiplication by a scalar that the caller has shown to give a valid value;
/// `checked_mul` is the form that reports overflow.
impl std::ops::Mul<u64> for SimulationTime {
    type Output = SimulationTime;

    fn mul(self, other: u64) -> (r: Self::Output) {
        self.checked_mul(other).unwrap()
    }
}

impl vstd::std_specs::ops::MulSpecImpl<u64> for SimulationTime {
    open spec fn obeys_mul_spec() -> bool {
        true
    }

    open spec fn mul_req(self, other: u64) -> bool {
        self@ * other <= SIMTIME_MAX
    }

    closed spec fn mul_spec(self, other: u64) -> SimulationTime {
        SimulationTime((self.0 * other) as u64)
    }
}

/// What `*` returns: the count times the scalar.
pub proof fn lemma_mul_spec(a: SimulationTime, n: u64)
    requires
        a@ * n <= SIMTIME_MAX,
    ensures
        a.mul_spec(n)@ == a@ * n,
{
}

/// Encoding a valid value as a raw integer and decoding that integer gives the
/// value back: the decoded count is the value's count, and a value is
/// determined by its count.
pub proof fn lemma_raw_round_trip(v: SimulationTime)
    requires
        v@ <= SIMTIME_MAX,
    ensures
        decode_raw(encode_raw(opt_view(Some(v)))) == opt_view(Some(v)),
        forall|w: SimulationTime| w@ == v@ ==> w == v,
{
}

/// A wall-clock duration of at most `SIMTIME_MAX` nanoseconds converts to a
/// simulation time `t` with the same count (`try_from_duration`), and any valid
/// duration with the count of `t` (what `to_duration` returns) is the original
/// duration.
pub proof fn lemma_duration_round_trip(d: WallDuration, t: SimulationTime, back: WallDuration)
    requires
        d.wf(),
        back.wf(),
        d@ <= SIMTIME_MAX,
        t@ == d@,
        back@ == t@,
    ensures
        back == d,
{
    back.lemma_view_injective(d);
}

} // verus!
