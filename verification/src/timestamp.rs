//! UTC timestamps and their wire encoding.
//!
//! A timestamp wire record is a plain signed Unix timestamp with a
//! non-negative sub-second nanosecond field — not the asymmetric signed
//! convention of durations. Decoding validates that the pair denotes a
//! calendar instant the chrono crate can represent, and keeps the raw
//! field values in the error when it does not.

use vstd::prelude::*;

use crate::convert::FromProto;
use crate::convert::ToProto;
use crate::duration::NANOS_PER_SECOND;
use crate::error::ConvertError;

verus! {

/// Wire record for a UTC instant, as emitted by the wire schema compiler:
/// non-leap Unix seconds and nanoseconds since that second.
#[derive(Debug, Clone, Copy, PartialEq, Eq, Structural)]
pub struct ProtoDateTimeUtc {
    /// Non-leap seconds since the Unix epoch; negative before it.
    pub seconds: i64,
    /// Nanoseconds since the last whole second.
    pub nanos: u32,
}

/// A valid UTC calendar instant, held as its Unix-epoch decomposition: the
/// same seconds and nanoseconds the wire record carries, once validated.
#[derive(Debug, Clone, Copy, PartialEq, Eq, Structural)]
pub struct DateTimeUtc {
    /// Non-leap seconds since the Unix epoch.
    pub seconds: i64,
    /// Nanoseconds since the last whole second.
    pub nanos: u32,
}

/// First Unix second of chrono's calendar range: 00:00:00 on January 1 of
/// year -262143.
pub const MIN_TIMESTAMP_SECONDS: i64 = -8_334_601_228_800;

/// Last Unix second of chrono's calendar range: 23:59:59 on December 31 of
/// year 262142.
pub const MAX_TIMESTAMP_SECONDS: i64 = 8_210_266_876_799;

/// Whether a `(seconds, nanos)` pair denotes a valid calendar instant:
/// seconds within the representable year range, and nanos either sub-second
/// or, on the last second of a minute, a leap second below two seconds.
pub open spec fn timestamp_valid(seconds: i64, nanos: u32) -> bool {
    &&& MIN_TIMESTAMP_SECONDS <= seconds <= MAX_TIMESTAMP_SECONDS
    &&& (nanos < NANOS_PER_SECOND || (nanos < 2_000_000_000 && seconds as int % 60 == 59))
}

/// Relies on `chrono::DateTime::<Utc>::from_timestamp`: it returns `Some`
/// exactly when the seconds lie within chrono's year range -262143..=262142
/// and the nanoseconds are below one second, or below two seconds on a
/// second `s` with `s.rem_euclid(60) == 59` (a leap second).
#[verifier::external_body]
fn chrono_accepts_timestamp(seconds: i64, nanos: u32) -> (r: bool)
    ensures
        r == timestamp_valid(seconds, nanos),
{
    chrono::DateTime::<chrono::Utc>::from_timestamp(seconds, nanos).is_some()
}

/// Decoding a timestamp wire record validates it against the calendar and
/// otherwise keeps its fields unchanged; the error of an invalid record
/// carries both raw field values.
impl FromProto for ProtoDateTimeUtc {
    type Result = DateTimeUtc;

    open spec fn from_proto_ok(self) -> bool {
        timestamp_valid(self.seconds, self.nanos)
    }

    open spec fn from_proto_rel(self, t: DateTimeUtc) -> bool {
        t == (DateTimeUtc { seconds: self.seconds, nanos: self.nanos })
    }

    open spec fn from_proto_err(self) -> ConvertError {
        ConvertError::UnrepresentableTimestamp { seconds: self.seconds, nanos: self.nanos }
    }

    fn from_proto(self) -> (r: Result<DateTimeUtc, ConvertError>) {
        if chrono_accepts_timestamp(self.seconds, self.nanos) {
            Ok(DateTimeUtc { seconds: self.seconds, nanos: self.nanos })
        } else {
            Err(ConvertError::UnrepresentableTimestamp {
                seconds: self.seconds,
                nanos: self.nanos,
            })
        }
    }
}

/// Encoding a UTC instant writes its Unix seconds and nanosecond-of-second
/// fields directly; no sign adjustment is involved.
impl ToProto for DateTimeUtc {
    type Result = ProtoDateTimeUtc;

    open spec fn to_proto_req(&self) -> bool {
        true
    }

    open spec fn to_proto_rel(&self, r: ProtoDateTimeUtc) -> bool {
        r == (ProtoDateTimeUtc { seconds: self.seconds, nanos: self.nanos })
    }

    fn to_proto(&self) -> (r: ProtoDateTimeUtc) {
        ProtoDateTimeUtc { seconds: self.seconds, nanos: self.nanos }
    }
}

/// Round-trip law for timestamps: a wire record that decodes re-encodes to
/// the same record, bit for bit.
pub proof fn lemma_timestamp_round_trip(p: ProtoDateTimeUtc, t: DateTimeUtc)
    requires
        p.from_proto_ok(),
        p.from_proto_rel(t),
    ensures
        t.to_proto_req(),
        t.to_proto_rel(p),
{
}

/// Reverse round trip for timestamps: every valid instant decodes back from
/// its own wire record.
pub proof fn lemma_timestamp_to_from(t: DateTimeUtc, p: ProtoDateTimeUtc)
    requires
        timestamp_valid(t.seconds, t.nanos),
        t.to_proto_rel(p),
    ensures
        p.from_proto_ok(),
        p.from_proto_rel(t),
{
}

} // verus!
