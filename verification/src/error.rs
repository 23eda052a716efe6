//! The errors a from-wire conversion can report.

use vstd::prelude::*;

verus! {

/// Why a from-wire conversion failed.
///
/// A sequence conversion reports the error of its first failing element
/// unchanged, so these two variants cover every failure of the layer.
#[derive(Debug, Clone, Copy, PartialEq, Eq, Structural)]
pub enum ConvertError {
    /// A required sub-value was absent from the wire value.
    MissingRequiredValue,
    /// A `(seconds, nanos)` pair does not denote a valid calendar instant;
    /// the raw field values are kept for diagnosis.
    UnrepresentableTimestamp { seconds: i64, nanos: u32 },
}

} // verus!
