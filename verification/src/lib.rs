//! Conversions between wire records and native domain values: booleans,
//! signed durations, UTC timestamps, and optional values and sequences of
//! convertible values.

mod convert;
mod duration;
mod error;
mod timestamp;

pub use convert::FromProto;
pub use convert::Required;
pub use convert::ToProto;
pub use convert::ToProtoAlias;
pub use convert::ToProtoOption;
pub use convert::seq_from_proto_err;
pub use convert::seq_from_proto_ok;
pub use duration::Duration;
pub use duration::ProtoDuration;
pub use duration::NANOS_PER_SECOND;
pub use duration::duration_encodable;
pub use duration::duration_from_proto_spec;
pub use duration::duration_to_proto_spec;
pub use duration::duration_total_nanos;
pub use duration::lemma_duration_round_trip;
pub use duration::lemma_duration_to_from;
pub use error::ConvertError;
pub use timestamp::DateTimeUtc;
pub use timestamp::MAX_TIMESTAMP_SECONDS;
pub use timestamp::MIN_TIMESTAMP_SECONDS;
pub use timestamp::ProtoDateTimeUtc;
pub use timestamp::lemma_timestamp_round_trip;
pub use timestamp::lemma_timestamp_to_from;
pub use timestamp::timestamp_valid;
