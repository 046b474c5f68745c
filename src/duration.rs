use vstd::prelude::*;

verus! {

/// Nanoseconds in one second.
pub const NANOS_PER_SEC: u32 = 1000000000;

/// A non-negative wall-clock span: whole seconds plus a nanosecond remainder
/// below one second.
#[derive(Copy, Clone, PartialEq, Eq, Structural, Debug)]
pub struct WallDuration {
    secs: u64,
    nanos: u32,
}

impl WallDuration {
    /// Validity: the nanosecond remainder is below one second.
    pub closed spec fn wf(self) -> bool {
        self.nanos < NANOS_PER_SEC
    }

    #[verifier::type_invariant]
    spec fn inv(self) -> bool {
        self.wf()
    }

    /// A valid duration is determined by its total nanoseconds.
    pub proof fn lemma_view_injective(self, other: Self)
        requires
            self.wf(),
            other.wf(),
            self@ == other@,
        ensures
            self == other,
    {
        self.lemma_split();
        other.lemma_split();
    }

    /// Total nanoseconds.
    pub closed spec fn view(self) -> nat {
        self.secs as nat * NANOS_PER_SEC as nat + self.nanos as nat
    }

    /// A span of `secs` seconds and `nanos` nanoseconds; `nanos` may exceed one
    /// second and then carries into the seconds.  `None` where the seconds
    /// would not fit in 64 bits.
    pub fn new(secs: u64, nanos: u32) -> (r: Option<Self>)
        ensures
            match r {
                Some(d) => d@ == secs * NANOS_PER_SEC + nanos,
                None => secs + nanos / NANOS_PER_SEC > u64::MAX,
            },
    {
        let extra: u64 = (nanos / NANOS_PER_SEC) as u64;
        match secs.checked_add(extra) {
            Some(s) => {
                let d = WallDuration { secs: s, nanos: nanos % NANOS_PER_SEC };
                proof {
                    assert(nanos == (nanos / NANOS_PER_SEC) * NANOS_PER_SEC + nanos % NANOS_PER_SEC)
                        by (nonlinear_arith);
                    assert(d@ == secs * NANOS_PER_SEC + nanos) by (nonlinear_arith)
                        requires
                            d@ == s * NANOS_PER_SEC + nanos % NANOS_PER_SEC,
                            s == secs + nanos / NANOS_PER_SEC,
                            nanos == (nanos / NANOS_PER_SEC) * NANOS_PER_SEC + nanos
                                % NANOS_PER_SEC,
                    ;
                }
                Some(d)
            },
            None => None,
        }
    }

    pub fn from_secs(secs: u64) -> (r: Self)
        ensures
            r@ == secs * NANOS_PER_SEC,
    {
        WallDuration { secs, nanos: 0 }
    }

    pub fn from_millis(millis: u64) -> (r: Self)
        ensures
            r@ == millis * 1000000,
    {
        let d = WallDuration { secs: millis / 1000, nanos: ((millis % 1000) * 1000000) as u32 };
        proof {
            assert(millis == (millis / 1000) * 1000 + millis % 1000) by (nonlinear_arith);
        }
        d
    }

    pub fn from_micros(micros: u64) -> (r: Self)
        ensures
            r@ == micros * 1000,
    {
        let d = WallDuration {
            secs: micros / 1000000,
            nanos: ((micros % 1000000) * 1000) as u32,
        };
        proof {
            assert(micros == (micros / 1000000) * 1000000 + micros % 1000000) by (nonlinear_arith);
        }
        d
    }

    pub fn from_nanos(nanos: u64) -> (r: Self)
        ensures
            r@ == nanos,
    {
        let d = WallDuration {
            secs: nanos / (NANOS_PER_SEC as u64),
            nanos: (nanos % (NANOS_PER_SEC as u64)) as u32,
        };
        proof {
            assert(nanos == (nanos / 1000000000) * 1000000000 + nanos % 1000000000)
                by (nonlinear_arith);
        }
        d
    }

    /// Whole seconds.
    pub fn as_secs(&self) -> (r: u64)
        ensures
            r == self@ / (NANOS_PER_SEC as nat),
    {
        proof {
            use_type_invariant(self);
            self.lemma_split();
        }
        self.secs
    }

    /// Whole milliseconds.
    pub fn as_millis(&self) -> (r: u128)
        ensures
            r == self@ / 1000000,
    {
        proof {
            use_type_invariant(self);
            let s = self.secs as int;
            let n = self.nanos as int;
            assert((s * 1000000000 + n) / 1000000 == s * 1000 + n / 1000000) by (nonlinear_arith)
                requires
                    0 <= n < 1000000000,
                    0 <= s,
            ;
        }
        self.secs as u128 * 1000 + (self.nanos / 1000000) as u128
    }

    /// Whole nanoseconds.
    pub fn as_nanos(&self) -> (r: u128)
        ensures
            r == self@,
    {
        proof {
            let s = self.secs as int;
            assert(s * 1000000000 <= u64::MAX * 1000000000) by (nonlinear_arith)
                requires
                    0 <= s <= u64::MAX,
            ;
        }
        self.secs as u128 * (NANOS_PER_SEC as u128) + self.nanos as u128
    }

    /// Nanoseconds past the last whole second.
    pub fn subsec_nanos(&self) -> (r: u32)
        ensures
            r == self@ % (NANOS_PER_SEC as nat),
    {
        proof {
            use_type_invariant(self);
            self.lemma_split();
        }
        self.nanos
    }

    /// Whole microseconds past the last whole second.
    pub fn subsec_micros(&self) -> (r: u32)
        ensures
            r == (self@ % (NANOS_PER_SEC as nat)) / 1000,
    {
        proof {
            use_type_invariant(self);
            self.lemma_split();
        }
        self.nanos / 1000
    }

    proof fn lemma_split(self)
        requires
            self.nanos < NANOS_PER_SEC,
        ensures
            self@ / (NANOS_PER_SEC as nat) == self.secs,
            self@ % (NANOS_PER_SEC as nat) == self.nanos,
    {
        let s = self.secs as int;
        let n = self.nanos as int;
        assert((s * 1000000000 + n) / 1000000000 == s) by (nonlinear_arith)
            requires
                0 <= n < 1000000000,
                0 <= s,
        ;
        assert((s * 1000000000 + n) % 1000000000 == n) by (nonlinear_arith)
            requires
                0 <= n < 1000000000,
                0 <= s,
        ;
    }

    /// The sum, unless its whole seconds overflow 64 bits.
    pub fn checked_add(self, other: Self) -> (r: Option<Self>)
        ensures
            match r {
                Some(d) => d@ == self@ + other@,
                None => (self@ + other@) / (NANOS_PER_SEC as nat) > u64::MAX,
            },
    {
        proof {
            use_type_invariant(self);
            use_type_invariant(other);
        }
        let nanos: u32 = self.nanos + other.nanos;
        let r = match self.secs.checked_add(other.secs) {
            Some(s) => WallDuration::new(s, nanos),
            None => None,
        };
        proof {
            let a = self.secs as int;
            let b = other.secs as int;
            let n = nanos as int;
            assert((a * 1000000000 + self.nanos + b * 1000000000 + other.nanos) / 1000000000 == a + b
                + n / 1000000000) by (nonlinear_arith)
                requires
                    n == self.nanos + other.nanos,
                    0 <= n < 2000000000,
                    0 <= a,
                    0 <= b,
            ;
        }
        r
    }
}

} // verus!
