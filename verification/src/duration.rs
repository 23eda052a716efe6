//! Signed durations and their wire encoding.
//!
//! A duration wire record holds a signed `seconds` base and a non-negative
//! `nanos` magnitude. The sign convention is deliberately asymmetric: when
//! `seconds >= 0` the nanoseconds add to the base, and when `seconds < 0`
//! they are subtracted from it, so the overall sign is carried by `seconds`
//! alone. A positive sub-second duration is encoded with `seconds == 0`;
//! there is no negative counterpart of that case.

use vstd::prelude::*;

use vstd::arithmetic::div_mod::lemma_fundamental_div_mod_converse;

use crate::convert::FromProto;
use crate::convert::ToProto;
use crate::error::ConvertError;

verus! {

/// One second, in nanoseconds.
pub const NANOS_PER_SECOND: u32 = 1_000_000_000;

/// Wire record for a signed duration, as emitted by the wire schema
/// compiler: a signed whole-second base and a non-negative nanosecond
/// magnitude.
#[derive(Debug, Clone, Copy, PartialEq, Eq, Structural)]
pub struct ProtoDuration {
    /// Whole seconds; carries the sign of the duration.
    pub seconds: i64,
    /// Nanosecond magnitude, added to a non-negative base and subtracted
    /// from a negative one.
    pub nanos: u32,
}

/// A signed duration at nanosecond precision, held as its total signed
/// length in nanoseconds.
#[derive(Debug, Clone, Copy, PartialEq, Eq, Structural)]
pub struct Duration {
    /// The signed length of the duration, in nanoseconds.
    pub total_nanos: i128,
}

/// The signed nanosecond total a duration wire record denotes.
pub open spec fn duration_total_nanos(p: ProtoDuration) -> int {
    if p.seconds >= 0 {
        p.seconds * (NANOS_PER_SECOND as int) + p.nanos
    } else {
        p.seconds * (NANOS_PER_SECOND as int) - p.nanos
    }
}

/// The domain duration a wire record decodes to.
pub open spec fn duration_from_proto_spec(p: ProtoDuration) -> Duration {
    Duration { total_nanos: duration_total_nanos(p) as i128 }
}

/// Whether the wire record can carry this duration: its whole-second part
/// must fit the signed 64-bit `seconds` field.
pub open spec fn duration_encodable(d: Duration) -> bool {
    i64::MIN * (NANOS_PER_SECOND as int) - (NANOS_PER_SECOND - 1) <= d.total_nanos as int
        <= i64::MAX * (NANOS_PER_SECOND as int) + (NANOS_PER_SECOND - 1)
}

/// The wire record a domain duration encodes to: a non-negative duration
/// splits directly into whole seconds and sub-second nanoseconds; a negative
/// one is decomposed by magnitude, and only the seconds are re-negated.
pub open spec fn duration_to_proto_spec(d: Duration) -> ProtoDuration {
    let v = d.total_nanos as int;
    if v >= 0 {
        ProtoDuration {
            seconds: (v / (NANOS_PER_SECOND as int)) as i64,
            nanos: (v % (NANOS_PER_SECOND as int)) as u32,
        }
    } else {
        ProtoDuration {
            seconds: (-((-v) / (NANOS_PER_SECOND as int))) as i64,
            nanos: ((-v) % (NANOS_PER_SECOND as int)) as u32,
        }
    }
}

/// Decoding a duration wire record applies the asymmetric sign convention
/// and never fails.
impl FromProto for ProtoDuration {
    type Result = Duration;

    open spec fn from_proto_ok(self) -> bool {
        true
    }

    open spec fn from_proto_rel(self, d: Duration) -> bool {
        d == duration_from_proto_spec(self)
    }

    open spec fn from_proto_err(self) -> ConvertError {
        arbitrary()
    }

    fn from_proto(self) -> (r: Result<Duration, ConvertError>) {
        let base: i128 = (self.seconds as i128) * (NANOS_PER_SECOND as i128);
        proof {
            vstd::arithmetic::mul::lemma_mul_inequality(
                self.seconds as int,
                i64::MAX as int,
                NANOS_PER_SECOND as int,
            );
            vstd::arithmetic::mul::lemma_mul_inequality(
                i64::MIN as int,
                self.seconds as int,
                NANOS_PER_SECOND as int,
            );
        }
        let total: i128 = if self.seconds >= 0 {
            base + self.nanos as i128
        } else {
            base - self.nanos as i128
        };
        Ok(Duration { total_nanos: total })
    }
}

/// Encoding a domain duration decomposes its magnitude and lets the
/// `seconds` field carry the sign.
impl ToProto for Duration {
    type Result = ProtoDuration;

    open spec fn to_proto_req(&self) -> bool {
        duration_encodable(*self)
    }

    open spec fn to_proto_rel(&self, r: ProtoDuration) -> bool {
        r == duration_to_proto_spec(*self)
    }

    fn to_proto(&self) -> (r: ProtoDuration) {
        if self.total_nanos >= 0 {
            let v = self.total_nanos as u128;
            let seconds = (v / (NANOS_PER_SECOND as u128)) as i64;
            let nanos = (v % (NANOS_PER_SECOND as u128)) as u32;
            ProtoDuration { seconds, nanos }
        } else {
            let m = (-self.total_nanos) as u128;
            let seconds = (-((m / (NANOS_PER_SECOND as u128)) as i128)) as i64;
            let nanos = (m % (NANOS_PER_SECOND as u128)) as u32;
            ProtoDuration { seconds, nanos }
        }
    }
}

/// Round-trip law for durations: a wire record whose `nanos` field is
/// sub-second decodes to an encodable duration that re-encodes to the same
/// record, bit for bit, for every signed 64-bit `seconds` value.
pub proof fn lemma_duration_round_trip(p: ProtoDuration, d: Duration)
    requires
        p.nanos < NANOS_PER_SECOND,
        p.from_proto_rel(d),
    ensures
        d.to_proto_req(),
        d.to_proto_rel(p),
{
    let n = NANOS_PER_SECOND as int;
    let v = duration_total_nanos(p);
    if p.seconds >= 0 {
        lemma_fundamental_div_mod_converse(v, n, p.seconds as int, p.nanos as int);
    } else {
        assert(-v == (-p.seconds) * n + p.nanos) by {
            assert((-p.seconds) * n == -(p.seconds * n)) by (nonlinear_arith);
        }
        lemma_fundamental_div_mod_converse(-v, n, -p.seconds as int, p.nanos as int);
    }
}

/// Reverse round trip for durations: every encodable duration outside the
/// ambiguous range `(-1s, 0)` decodes back from its own wire record. A
/// negative sub-second duration encodes with `seconds == 0`, which decodes
/// as positive; that asymmetry is part of the wire convention.
pub proof fn lemma_duration_to_from(d: Duration, p: ProtoDuration)
    requires
        duration_encodable(d),
        d.total_nanos >= 0 || d.total_nanos as int <= -(NANOS_PER_SECOND as int),
        d.to_proto_rel(p),
    ensures
        p.from_proto_ok(),
        p.from_proto_rel(d),
{
    let n = NANOS_PER_SECOND as int;
    let v = d.total_nanos as int;
    if v >= 0 {
        vstd::arithmetic::div_mod::lemma_fundamental_div_mod(v, n);
        assert(v / n >= 0 && v % n >= 0) by {
            vstd::arithmetic::div_mod::lemma_div_is_ordered(0, v, n);
            vstd::arithmetic::div_mod::lemma_mod_bound(v, n);
        }
    } else {
        let m = -v;
        vstd::arithmetic::div_mod::lemma_fundamental_div_mod(m, n);
        vstd::arithmetic::div_mod::lemma_mod_bound(m, n);
        assert(m / n >= 1) by {
            vstd::arithmetic::div_mod::lemma_div_is_ordered(n, m, n);
            vstd::arithmetic::div_mod::lemma_div_by_self(n);
        }
        assert(p.seconds * n == -((m / n) * n)) by (nonlinear_arith)
            requires
                p.seconds == -(m / n),
        ;
    }
}

} // verus!
