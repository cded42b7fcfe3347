//! A fixed-layout encoding of an optional value. The native optional
//! type has no guaranteed layout across compiler versions, so values
//! crossing the boundary travel in this type instead; conversion to
//! and from the native type is total and lossless in both directions.

use vstd::prelude::*;

verus! {

/// Presence or absence of a value, with a layout that is stable
/// across the boundary.
#[derive(Debug, Clone, PartialEq, Eq)]
pub enum FfiOption<T> {
    /// A value is present (as the native optional's value case).
    Present(T),
    /// No value (as the native optional's empty case).
    Absent,
}

/// The encoding of a native optional: each case maps to the
/// fixed-layout case of the same meaning.
pub open spec fn encode_option<T>(o: Option<T>) -> FfiOption<T> {
    match o {
        Some(t) => FfiOption::Present(t),
        None => FfiOption::Absent,
    }
}

/// The decoding back to a native optional.
pub open spec fn decode_option<T>(v: FfiOption<T>) -> Option<T> {
    match v {
        FfiOption::Present(t) => Some(t),
        FfiOption::Absent => None,
    }
}

impl<T> FfiOption<T> {
    /// The payload. Taking the payload of the absent case is a
    /// contract violation, not an expected failure; the precondition
    /// rules it out, so this function never aborts.
    pub fn unwrap(self) -> (r: T)
        requires
            self is Present,
        ensures
            r == self->0,
    {
        match self {
            FfiOption::Present(t) => t,
            FfiOption::Absent => vstd::pervasive::unreached(),
        }
    }
}

impl<T> From<Option<T>> for FfiOption<T> {
    /// Encodes a native optional, losslessly.
    fn from(value: Option<T>) -> (r: FfiOption<T>) {
        match value {
            Some(t) => FfiOption::Present(t),
            None => FfiOption::Absent,
        }
    }
}

impl<T> vstd::std_specs::convert::FromSpecImpl<Option<T>> for FfiOption<T> {
    open spec fn obeys_from_spec() -> bool {
        true
    }

    open spec fn from_spec(v: Option<T>) -> FfiOption<T> {
        encode_option(v)
    }
}

impl<T> From<FfiOption<T>> for Option<T> {
    /// Decodes back to a native optional, losslessly.
    fn from(value: FfiOption<T>) -> (r: Option<T>) {
        match value {
            FfiOption::Present(t) => Some(t),
            FfiOption::Absent => None,
        }
    }
}

impl<T> vstd::std_specs::convert::FromSpecImpl<FfiOption<T>> for Option<T> {
    open spec fn obeys_from_spec() -> bool {
        true
    }

    open spec fn from_spec(v: FfiOption<T>) -> Option<T> {
        decode_option(v)
    }
}

/// Round trip: encoding a native optional and decoding it back
/// yields the original value, for every value.
pub proof fn lemma_option_round_trip<T>(o: Option<T>)
    ensures
        decode_option(encode_option(o)) == o,
{
}

/// Round trip the other way: decoding a fixed-layout optional and
/// re-encoding it yields the original value, for every value.
pub proof fn lemma_ffi_option_round_trip<T>(v: FfiOption<T>)
    ensures
        encode_option(decode_option(v)) == v,
{
}

} // verus!
