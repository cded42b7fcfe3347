//! A borrowed UTF-8 text view: a read-only byte view specialized to
//! hold valid encoded text, not null-terminated. The producer
//! guarantees the encoding at construction; the type never
//! re-validates.

use core::cmp::Ordering;
use vstd::prelude::*;
use vstd::std_specs::cmp::PartialEqSpec;
use vstd::std_specs::cmp::PartialOrdSpec;
use vstd::utf8::encode_utf8;
use vstd::utf8::encode_utf8_decode_utf8;

use crate::compare::bytes_eq;
use crate::compare::compare_bytes;
use crate::compare::lemma_lex_cmp_equal_iff;
use crate::compare::lex_cmp_spec;

verus! {

/// A non-owning view of a text region, valid only until the callee
/// returns to the caller. The host's text-slice type already carries
/// the producer's UTF-8 guarantee, so the view wraps it directly.
#[derive(Clone, Debug)]
pub struct FfiString<'a> {
    data: &'a str,
}

impl<'a> View for FfiString<'a> {
    type V = Seq<char>;

    closed spec fn view(&self) -> Seq<char> {
        self.data@
    }
}

impl<'a> FfiString<'a> {
    /// Wraps a borrowed text region in a view that can cross the
    /// boundary.
    pub fn new(s: &'a str) -> (r: FfiString<'a>)
        ensures
            r@ == s@,
    {
        FfiString { data: s }
    }

    /// The text behind the view, exposed without re-validation.
    pub fn as_str(&self) -> (r: &str)
        ensures
            r@ == self@,
    {
        self.data
    }

    /// The display rendering: the raw text itself.
    pub fn display_string(&self) -> (r: String)
        ensures
            r@ == self@,
    {
        self.data.to_owned()
    }

    /// The debug rendering: the quoted, escaped form of the text.
    pub fn debug_string(&self) -> (r: String)
        ensures
            r@ == quoted_of(self@),
    {
        quote_str(self.data)
    }
}

/// The quoted, escaped rendering of a text, as the host's debug
/// formatting produces it.
pub uninterp spec fn quoted_of(s: Seq<char>) -> Seq<char>;

/// Relies on str's `Debug` formatting (`{:?}`): the quoted, escaped
/// rendering of a text depends on its characters alone.
#[verifier::external_body]
fn quote_str(s: &str) -> (r: String)
    ensures
        r@ == quoted_of(s@),
{
    format!("{:?}", s)
}

/// The text view that `From` yields: the wrapped text itself (see
/// `lemma_text_from_str`).
pub closed spec fn text_from_str(v: &str) -> FfiString<'_> {
    FfiString { data: v }
}

/// What `From` yields for a text region: a view of exactly that text.
pub proof fn lemma_text_from_str(v: &str)
    ensures
        text_from_str(v)@ == v@,
{
}

impl<'a> From<&'a str> for FfiString<'a> {
    /// Wraps a borrowed text region, exactly as `new` does.
    fn from(input: &'a str) -> (r: FfiString<'a>) {
        FfiString { data: input }
    }
}

impl<'a> vstd::std_specs::convert::FromSpecImpl<&'a str> for FfiString<'a> {
    open spec fn obeys_from_spec() -> bool {
        true
    }

    open spec fn from_spec(v: &'a str) -> FfiString<'a> {
        text_from_str(v)
    }
}

impl<'a> PartialEq for FfiString<'a> {
    /// Equality delegates to byte-wise comparison of the encoded
    /// text, which for valid UTF-8 agrees with comparing the
    /// character sequences.
    fn eq(&self, rhs: &Self) -> (r: bool) {
        let r = bytes_eq(self.data.as_bytes(), rhs.data.as_bytes());
        proof {
            encode_utf8_decode_utf8(self@);
            encode_utf8_decode_utf8(rhs@);
        }
        r
    }
}

impl<'a> vstd::std_specs::cmp::PartialEqSpecImpl for FfiString<'a> {
    open spec fn obeys_eq_spec() -> bool {
        true
    }

    open spec fn eq_spec(&self, other: &Self) -> bool {
        self@ == other@
    }
}

impl<'a> Eq for FfiString<'a> {

}

impl<'a> PartialOrd for FfiString<'a> {
    /// Ordering delegates to lexicographic byte-wise comparison of
    /// the encoded text.
    fn partial_cmp(&self, rhs: &Self) -> (r: Option<Ordering>) {
        Some(compare_bytes(self.data.as_bytes(), rhs.data.as_bytes()))
    }
}

impl<'a> vstd::std_specs::cmp::PartialOrdSpecImpl for FfiString<'a> {
    open spec fn obeys_partial_cmp_spec() -> bool {
        true
    }

    open spec fn partial_cmp_spec(&self, other: &Self) -> Option<Ordering> {
        Some(lex_cmp_spec(encode_utf8(self@), encode_utf8(other@)))
    }
}

/// Ordering is consistent with equality: two text views compare
/// `Equal` exactly when they hold the same characters.
pub proof fn lemma_text_cmp_consistent_with_eq(x: FfiString, y: FfiString)
    ensures
        x.partial_cmp_spec(&y) == Some(Ordering::Equal) <==> x.eq_spec(&y),
{
    lemma_lex_cmp_equal_iff(encode_utf8(x@), encode_utf8(y@));
    encode_utf8_decode_utf8(x@);
    encode_utf8_decode_utf8(y@);
}

} // verus!
