//! A borrowed, read-only byte view with an explicit bound, safe to
//! hand across a binary interface boundary for the duration of one
//! call. The producer retains ownership of the region.

use core::cmp::Ordering;
use vstd::prelude::*;
use vstd::std_specs::cmp::PartialEqSpec;
use vstd::std_specs::cmp::PartialOrdSpec;

use crate::compare::bytes_eq;
use crate::compare::compare_bytes;
use crate::compare::lemma_lex_cmp_equal_iff;
use crate::compare::lex_cmp_spec;
use crate::hexfmt::ascii_to_string;
use crate::hexfmt::hex_ascii;
use crate::hexfmt::hex_render;

verus! {

/// A non-owning, read-only view of a byte region, valid only until the
/// callee returns to the caller. Unlike the writable buffer, an empty
/// instance is still a readable (zero-length) view.
#[derive(Clone, Debug)]
pub struct FfiByteSlice<'a> {
    /// The bytes being lent out, borrowed from the producer.
    pub data: &'a [u8],
}

impl<'a> View for FfiByteSlice<'a> {
    type V = Seq<u8>;

    open spec fn view(&self) -> Seq<u8> {
        self.data@
    }
}

impl<'a> FfiByteSlice<'a> {
    /// Wraps a borrowed byte region in a view that can cross the
    /// boundary.
    pub fn new(s: &'a [u8]) -> (r: FfiByteSlice<'a>)
        ensures
            r@ == s@,
    {
        FfiByteSlice { data: s }
    }

    /// The canonical empty view: zero length, over a fixed empty
    /// region that lives for the whole program.
    pub fn empty() -> (r: FfiByteSlice<'static>)
        ensures
            r@ == Seq::<u8>::empty(),
    {
        let e: &'static [u8] = "".as_bytes();
        proof {
            reveal_strlit("");
            assert(e@ =~= Seq::<u8>::empty());
        }
        FfiByteSlice { data: e }
    }

    /// The bytes behind the view; always readable, never absent.
    pub fn as_slice(&self) -> (r: &[u8])
        ensures
            r@ == self@,
    {
        self.data
    }

    /// The debug rendering: each byte as two lowercase hex digits
    /// prefixed `0x`, comma-separated, inside spaced brackets.
    pub fn debug_string(&self) -> (r: String)
        ensures
            r@ == hex_render(self@),
    {
        let ascii = hex_ascii(self.data);
        ascii_to_string(ascii)
    }
}

impl<'a> From<&'a [u8]> for FfiByteSlice<'a> {
    /// Wraps a borrowed byte region, exactly as `new` does.
    fn from(input: &'a [u8]) -> (r: FfiByteSlice<'a>) {
        FfiByteSlice { data: input }
    }
}

impl<'a> vstd::std_specs::convert::FromSpecImpl<&'a [u8]> for FfiByteSlice<'a> {
    open spec fn obeys_from_spec() -> bool {
        true
    }

    open spec fn from_spec(v: &'a [u8]) -> FfiByteSlice<'a> {
        FfiByteSlice { data: v }
    }
}

impl<'a> PartialEq for FfiByteSlice<'a> {
    /// Length-first equality: views of different lengths are never
    /// equal; views of equal length are equal exactly when every byte
    /// matches.
    fn eq(&self, rhs: &Self) -> (r: bool) {
        if self.data.len() != rhs.data.len() {
            return false;
        }
        bytes_eq(self.data, rhs.data)
    }
}

impl<'a> vstd::std_specs::cmp::PartialEqSpecImpl for FfiByteSlice<'a> {
    open spec fn obeys_eq_spec() -> bool {
        true
    }

    open spec fn eq_spec(&self, other: &Self) -> bool {
        self@ == other@
    }
}

impl<'a> Eq for FfiByteSlice<'a> {

}

impl<'a> PartialOrd for FfiByteSlice<'a> {
    /// Lexicographic ordering over the bytes, consistent with
    /// equality.
    fn partial_cmp(&self, rhs: &Self) -> (r: Option<Ordering>) {
        Some(compare_bytes(self.data, rhs.data))
    }
}

impl<'a> vstd::std_specs::cmp::PartialOrdSpecImpl for FfiByteSlice<'a> {
    open spec fn obeys_partial_cmp_spec() -> bool {
        true
    }

    open spec fn partial_cmp_spec(&self, other: &Self) -> Option<Ordering> {
        Some(lex_cmp_spec(self@, other@))
    }
}

/// Two byte views of different lengths are never equal, whatever
/// bytes they hold.
pub proof fn lemma_slice_len_mismatch_not_equal(x: FfiByteSlice, y: FfiByteSlice)
    requires
        x@.len() != y@.len(),
    ensures
        !x.eq_spec(&y),
{
}

/// Byte-wise equality: two byte views are equal exactly when they
/// have the same length and the same byte at every index.
pub proof fn lemma_slice_eq_is_bytewise(x: FfiByteSlice, y: FfiByteSlice)
    ensures
        x.eq_spec(&y) <==> (x@.len() == y@.len() && forall|i: int|
            0 <= i < x@.len() ==> x@[i] == y@[i]),
{
    if x@.len() == y@.len() && (forall|i: int| 0 <= i < x@.len() ==> x@[i] == y@[i]) {
        assert(x@ =~= y@);
    }
}

/// Ordering is consistent with equality: two views compare `Equal`
/// exactly when they are equal.
pub proof fn lemma_slice_cmp_consistent_with_eq(x: FfiByteSlice, y: FfiByteSlice)
    ensures
        x.partial_cmp_spec(&y) == Some(Ordering::Equal) <==> x.eq_spec(&y),
{
    lemma_lex_cmp_equal_iff(x@, y@);
}

} // verus!
