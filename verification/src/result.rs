//! A fixed-layout encoding of a fallible value. The native
//! success/failure type has no guaranteed layout across compiler
//! versions, so values crossing the boundary travel in this type
//! instead; conversion to and from the native type is total and
//! lossless in both directions.

use vstd::prelude::*;

verus! {

/// Success with a value or failure with an error, with a layout that
/// is stable across the boundary.
#[derive(Clone, PartialEq, PartialOrd, Eq, Ord, Debug, Hash)]
pub enum FfiResult<T, E> {
    /// The operation succeeded (as the native success case).
    Success(T),
    /// The operation failed (as the native failure case).
    Failure(E),
}

/// The encoding of a native fallible value: each case maps to the
/// fixed-layout case of the same meaning.
pub open spec fn encode_result<T, E>(r: Result<T, E>) -> FfiResult<T, E> {
    match r {
        Ok(t) => FfiResult::Success(t),
        Err(e) => FfiResult::Failure(e),
    }
}

/// The decoding back to a native fallible value.
pub open spec fn decode_result<T, E>(v: FfiResult<T, E>) -> Result<T, E> {
    match v {
        FfiResult::Success(t) => Ok(t),
        FfiResult::Failure(e) => Err(e),
    }
}

impl<T, E> FfiResult<T, E> {
    /// The success value. Taking it from the failure case is a
    /// contract violation, not an expected failure; the precondition
    /// rules it out, so this function never aborts.
    pub fn unwrap(self) -> (r: T)
        requires
            self is Success,
        ensures
            r == self->Success_0,
    {
        match self {
            FfiResult::Success(t) => t,
            FfiResult::Failure(_) => vstd::pervasive::unreached(),
        }
    }
}

impl<T, E> From<Result<T, E>> for FfiResult<T, E> {
    /// Encodes a native fallible value, losslessly.
    fn from(value: Result<T, E>) -> (r: FfiResult<T, E>) {
        match value {
            Ok(t) => FfiResult::Success(t),
            Err(e) => FfiResult::Failure(e),
        }
    }
}

impl<T, E> vstd::std_specs::convert::FromSpecImpl<Result<T, E>> for FfiResult<T, E> {
    open spec fn obeys_from_spec() -> bool {
        true
    }

    open spec fn from_spec(v: Result<T, E>) -> FfiResult<T, E> {
        encode_result(v)
    }
}

impl<T, E> From<FfiResult<T, E>> for Result<T, E> {
    /// Decodes back to a native fallible value, losslessly.
    fn from(value: FfiResult<T, E>) -> (r: Result<T, E>) {
        match value {
            FfiResult::Success(t) => Ok(t),
            FfiResult::Failure(e) => Err(e),
        }
    }
}

impl<T, E> vstd::std_specs::convert::FromSpecImpl<FfiResult<T, E>> for Result<T, E> {
    open spec fn obeys_from_spec() -> bool {
        true
    }

    open spec fn from_spec(v: FfiResult<T, E>) -> Result<T, E> {
        decode_result(v)
    }
}

/// Round trip: encoding a native fallible value and decoding it back
/// yields the original value, for every value.
pub proof fn lemma_result_round_trip<T, E>(r: Result<T, E>)
    ensures
        decode_result(encode_result(r)) == r,
{
}

/// Round trip the other way: decoding a fixed-layout fallible value
/// and re-encoding it yields the original value, for every value.
pub proof fn lemma_ffi_result_round_trip<T, E>(v: FfiResult<T, E>)
    ensures
        encode_result(decode_result(v)) == v,
{
}

} // verus!
