//! The generic conversion interfaces between domain values and wire values,
//! and their derived forms for optional values and ordered sequences.

use vstd::prelude::*;

use crate::error::ConvertError;

verus! {

/// Unwrap the value from an optional wire value; if the value is missing, a
/// `MissingRequiredValue` error is reported instead.
pub trait Required: Sized {
    /// The type of the contained value.
    type Result;

    /// Whether a value is present.
    spec fn req_present(self) -> bool;

    /// The contained value, when one is present.
    spec fn req_value(self) -> Self::Result;

    /// Return the contained value, or fail when it is absent.
    fn required(self) -> (r: Result<Self::Result, ConvertError>)
        ensures
            r is Ok <==> self.req_present(),
            r matches Ok(v) ==> v == self.req_value(),
            r matches Err(e) ==> e == ConvertError::MissingRequiredValue,
    ;
}

impl<T> Required for Option<T> {
    type Result = T;

    open spec fn req_present(self) -> bool {
        self is Some
    }

    open spec fn req_value(self) -> T {
        self->0
    }

    fn required(self) -> (r: Result<T, ConvertError>) {
        if let Some(value) = self {
            Ok(value)
        } else {
            Err(ConvertError::MissingRequiredValue)
        }
    }
}

/// Convert a domain value into its wire value. The wire conversion is total:
/// it never fails on any value that `to_proto_req` admits, and `to_proto_req`
/// excludes only values whose encoding would overflow a wire field.
pub trait ToProto {
    /// The wire value type.
    type Result;

    /// Which domain values the wire record can carry (machine limits only).
    spec fn to_proto_req(&self) -> bool;

    /// Exactly which wire value the conversion produces.
    spec fn to_proto_rel(&self, r: Self::Result) -> bool;

    /// Convert the value into its wire value.
    fn to_proto(&self) -> (r: Self::Result)
        requires
            self.to_proto_req(),
        ensures
            self.to_proto_rel(r),
    ;

    /// Convert the value into its wire value, wrapped as present.
    fn to_proto_option(&self) -> (r: Option<Self::Result>)
        requires
            self.to_proto_req(),
        ensures
            r matches Some(v) && self.to_proto_rel(v),
    {
        Some(self.to_proto())
    }
}

/// Convert a domain value into a named wire type, for a domain type whose
/// wire type cannot be inferred from context alone.
pub trait ToProtoAlias<T> {
    /// Exactly which wire value the conversion produces.
    spec fn to_proto_alias_rel(&self, r: T) -> bool;

    /// Convert the value into its wire value.
    fn to_proto(&self) -> (r: T)
        ensures
            self.to_proto_alias_rel(r),
    ;

    /// Convert the value into its wire value, wrapped as present.
    fn to_proto_option(&self) -> (r: Option<T>)
        ensures
            r matches Some(v) && self.to_proto_alias_rel(v),
    {
        Some(self.to_proto())
    }
}

/// Convert a domain value into an optional wire value, for a domain type
/// that may legitimately have no wire representation.
pub trait ToProtoOption<T> {
    /// Exactly which optional wire value the conversion produces.
    spec fn to_proto_opt_rel(&self, r: Option<T>) -> bool;

    /// Convert the value into its wire representation, if it has one.
    fn to_proto(&self) -> (r: Option<T>)
        ensures
            self.to_proto_opt_rel(r),
    ;
}

/// Convert a wire value into its domain value, or report why it has none.
pub trait FromProto: Sized {
    /// The domain value type.
    type Result;

    /// Whether the conversion succeeds on this wire value.
    spec fn from_proto_ok(self) -> bool;

    /// Exactly which domain value a successful conversion produces.
    spec fn from_proto_rel(self, v: Self::Result) -> bool;

    /// The error a failing conversion reports.
    spec fn from_proto_err(self) -> ConvertError;

    /// Convert the wire value into its domain value.
    fn from_proto(self) -> (r: Result<Self::Result, ConvertError>)
        ensures
            r is Ok <==> self.from_proto_ok(),
            r matches Ok(v) ==> self.from_proto_rel(v),
            r matches Err(e) ==> e == self.from_proto_err(),
    ;
}

/// Booleans are their own wire representation.
impl ToProtoAlias<bool> for bool {
    open spec fn to_proto_alias_rel(&self, r: bool) -> bool {
        r == *self
    }

    fn to_proto(&self) -> (r: bool) {
        *self
    }
}

/// Booleans are their own wire representation.
impl FromProto for bool {
    type Result = bool;

    open spec fn from_proto_ok(self) -> bool {
        true
    }

    open spec fn from_proto_rel(self, v: bool) -> bool {
        v == self
    }

    open spec fn from_proto_err(self) -> ConvertError {
        arbitrary()
    }

    fn from_proto(self) -> (r: Result<bool, ConvertError>) {
        Ok(self)
    }
}

/// An absent wire value converts to an absent domain value; a present one
/// converts by the contained value's conversion, propagating its error.
impl<T: FromProto> FromProto for Option<T> {
    type Result = Option<T::Result>;

    open spec fn from_proto_ok(self) -> bool {
        self matches Some(v) ==> v.from_proto_ok()
    }

    open spec fn from_proto_rel(self, r: Option<T::Result>) -> bool {
        match self {
            None => r is None,
            Some(v) => r matches Some(w) && v.from_proto_rel(w),
        }
    }

    open spec fn from_proto_err(self) -> ConvertError {
        self->0.from_proto_err()
    }

    fn from_proto(self) -> (r: Result<Option<T::Result>, ConvertError>) {
        match self {
            None => Ok(None),
            Some(v) => match v.from_proto() {
                Ok(w) => Ok(Some(w)),
                Err(e) => Err(e),
            },
        }
    }
}

/// Whether every element of a sequence of wire values converts.
pub open spec fn seq_from_proto_ok<T: FromProto>(s: Seq<T>) -> bool {
    forall|i: int| 0 <= i < s.len() ==> (#[trigger] s[i]).from_proto_ok()
}

/// The error of the first element of `s` whose conversion fails; a sequence
/// conversion fails fast with exactly this error.
pub open spec fn seq_from_proto_err<T: FromProto>(s: Seq<T>) -> ConvertError
    decreases s.len(),
{
    if s.len() == 0 {
        arbitrary()
    } else if !s[0].from_proto_ok() {
        s[0].from_proto_err()
    } else {
        seq_from_proto_err(s.skip(1))
    }
}

/// When every element before `i` converts and the element at `i` does not,
/// the first failing element of `s` is the one at `i`.
proof fn lemma_seq_from_proto_err_at<T: FromProto>(s: Seq<T>, i: int)
    requires
        0 <= i < s.len(),
        forall|j: int| 0 <= j < i ==> (#[trigger] s[j]).from_proto_ok(),
        !s[i].from_proto_ok(),
    ensures
        seq_from_proto_err(s) == s[i].from_proto_err(),
    decreases i,
{
    if i > 0 {
        assert forall|j: int| 0 <= j < i - 1 implies (#[trigger] s.skip(1)[j]).from_proto_ok() by {
            assert(s.skip(1)[j] == s[j + 1]);
        }
        assert(s.skip(1)[i - 1] == s[i]);
        lemma_seq_from_proto_err_at(s.skip(1), i - 1);
    }
}

/// A sequence of wire values converts elementwise, in order: every element
/// must convert, and the first failure aborts the whole conversion with that
/// element's error and no partial result.
impl<T: FromProto> FromProto for Vec<T> {
    type Result = Vec<T::Result>;

    open spec fn from_proto_ok(self) -> bool {
        seq_from_proto_ok(self@)
    }

    open spec fn from_proto_rel(self, r: Vec<T::Result>) -> bool {
        &&& r@.len() == self@.len()
        &&& forall|i: int| 0 <= i < self@.len() ==> (#[trigger] self@[i]).from_proto_rel(r@[i])
    }

    open spec fn from_proto_err(self) -> ConvertError {
        seq_from_proto_err(self@)
    }

    fn from_proto(self) -> (r: Result<Vec<T::Result>, ConvertError>) {
        let ghost orig: Seq<T> = self@;
        let mut rest = self;
        let mut result: Vec<T::Result> = Vec::new();
        #[verifier::loop_isolation(false)]
        while rest.len() != 0
            invariant
                result@.len() <= orig.len(),
                rest@ == orig.skip(result@.len() as int),
                forall|j: int| 0 <= j < result@.len() ==> (#[trigger] orig[j]).from_proto_ok(),
                forall|j: int| 0 <= j < result@.len() ==> (#[trigger] orig[j]).from_proto_rel(
                    result@[j],
                ),
            decreases rest@.len(),
        {
            let ghost i: int = result@.len() as int;
            let item = rest.remove(0);
            proof {
                assert(item == orig[i]);
                assert(rest@ == orig.skip(i + 1));
            }
            match item.from_proto() {
                Ok(v) => {
                    result.push(v);
                }
                Err(e) => {
                    proof {
                        assert(!orig[i].from_proto_ok());
                        lemma_seq_from_proto_err_at(orig, i);
                    }
                    return Err(e);
                }
            }
        }
        proof {
            assert(orig.skip(result@.len() as int).len() == 0);
            assert(result@.len() == orig.len());
        }
        Ok(result)
    }
}

/// A sequence of domain values converts elementwise, in order, and always
/// succeeds.
impl<T: ToProto> ToProto for Vec<T> {
    type Result = Vec<T::Result>;

    open spec fn to_proto_req(&self) -> bool {
        forall|i: int| 0 <= i < self@.len() ==> (#[trigger] self@[i]).to_proto_req()
    }

    open spec fn to_proto_rel(&self, r: Vec<T::Result>) -> bool {
        &&& r@.len() == self@.len()
        &&& forall|i: int| 0 <= i < self@.len() ==> (#[trigger] self@[i]).to_proto_rel(r@[i])
    }

    fn to_proto(&self) -> (r: Vec<T::Result>) {
        let mut result: Vec<T::Result> = Vec::new();
        let mut i: usize = 0;
        while i < self.len()
            invariant
                i <= self@.len(),
                result@.len() == i,
                forall|k: int| 0 <= k < self@.len() ==> (#[trigger] self@[k]).to_proto_req(),
                forall|j: int| 0 <= j < i ==> (#[trigger] self@[j]).to_proto_rel(result@[j]),
            decreases self@.len() - i,
        {
            let item = &self[i];
            result.push(item.to_proto());
            i = i + 1;
        }
        result
    }
}

/// An absent domain value converts to an absent wire value; a present one
/// converts by the contained value's conversion, which cannot fail.
impl<T: ToProto> ToProto for Option<T> {
    type Result = Option<T::Result>;

    open spec fn to_proto_req(&self) -> bool {
        *self matches Some(v) ==> v.to_proto_req()
    }

    open spec fn to_proto_rel(&self, r: Option<T::Result>) -> bool {
        match *self {
            None => r is None,
            Some(v) => r matches Some(w) && v.to_proto_rel(w),
        }
    }

    fn to_proto(&self) -> (r: Option<T::Result>) {
        match self {
            None => None,
            Some(v) => Some(v.to_proto()),
        }
    }
}

} // verus!
