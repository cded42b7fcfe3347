//! A writable byte buffer with an explicit bound, lent to a callee
//! for the duration of one call. The canonical empty form stands for
//! "no region at all" and is the one place absence is surfaced: asking
//! it for a writable view yields the absent indicator, never an error.

use core::cmp::Ordering;
use vstd::prelude::*;
use vstd::std_specs::cmp::PartialEqSpec;
use vstd::std_specs::cmp::PartialOrdSpec;

use crate::compare::bytes_eq;
use crate::compare::compare_bytes;
use crate::compare::lemma_lex_cmp_equal_iff;
use crate::compare::lex_cmp_spec;
use crate::hexfmt::ascii_to_string;
use crate::hexfmt::hex_ascii;
use crate::hexfmt::hex_render;

verus! {

/// A writable byte region lent out for one call. The buffer carries
/// the region's bytes by value; the producer hands them in at
/// construction and takes them back through the writable view, so no
/// two parties ever hold the region at once.
#[derive(Debug)]
pub struct FfiBuffer {
    /// The bytes of the lent region.
    data: Vec<u8>,
    /// Whether this is the canonical empty form, which describes no
    /// region at all.
    null: bool,
}

impl View for FfiBuffer {
    type V = Seq<u8>;

    closed spec fn view(&self) -> Seq<u8> {
        self.data@
    }
}

impl FfiBuffer {
    /// The canonical empty form describes no region, so it holds no
    /// bytes.
    #[verifier::type_invariant]
    spec fn wf(self) -> bool {
        self.null ==> self.data@.len() == 0
    }

    /// Whether this is the canonical empty form.
    pub closed spec fn is_null(self) -> bool {
        self.null
    }

    /// Wraps a byte region in a writable buffer. The result always
    /// describes a region, even a zero-length one: only `empty` makes
    /// the canonical empty form.
    pub fn new(s: Vec<u8>) -> (r: FfiBuffer)
        ensures
            r@ == s@,
            !r.is_null(),
    {
        FfiBuffer { data: s, null: false }
    }

    /// The canonical empty buffer: no region at all.
    pub fn empty() -> (r: FfiBuffer)
        ensures
            r@ == Seq::<u8>::empty(),
            r.is_null(),
    {
        FfiBuffer { data: Vec::new(), null: true }
    }

    /// A read-only look at the region's bytes; empty for the
    /// canonical empty form.
    pub fn as_slice(&self) -> (r: &[u8])
        ensures
            r@ == self@,
            self.is_null() ==> r@.len() == 0,
    {
        proof {
            use_type_invariant(self);
        }
        self.data.as_slice()
    }

    /// The writable view: the region's bytes, handed back to the
    /// caller. The canonical empty form describes no region, so it
    /// yields the absent indicator; that is a designed empty result,
    /// not an error.
    pub fn as_mut_slice(self) -> (r: Option<Vec<u8>>)
        ensures
            self.is_null() ==> r is None,
            !self.is_null() ==> (r matches Some(v) && v@ == self@),
    {
        if self.null {
            None
        } else {
            Some(self.data)
        }
    }

    /// The debug rendering: each byte as two lowercase hex digits
    /// prefixed `0x`, comma-separated, inside spaced brackets.
    pub fn debug_string(&self) -> (r: String)
        ensures
            r@ == hex_render(self@),
    {
        let ascii = hex_ascii(self.data.as_slice());
        ascii_to_string(ascii)
    }
}

impl Clone for FfiBuffer {
    /// A clone holds the same bytes and keeps the canonical-empty
    /// marker.
    fn clone(&self) -> (r: Self)
        ensures
            r@ == self@,
            r.is_null() == self.is_null(),
    {
        proof {
            use_type_invariant(self);
        }
        FfiBuffer { data: vstd::slice::slice_to_vec(self.data.as_slice()), null: self.null }
    }
}

impl From<Vec<u8>> for FfiBuffer {
    /// Wraps a byte region, exactly as `new` does.
    fn from(input: Vec<u8>) -> (r: FfiBuffer) {
        FfiBuffer { data: input, null: false }
    }
}

/// The buffer that `From` yields for a byte region: never the
/// canonical empty form, holding exactly the given bytes (see
/// `lemma_buffer_from_bytes`).
pub closed spec fn buffer_from_bytes(v: Vec<u8>) -> FfiBuffer {
    FfiBuffer { data: v, null: false }
}

/// What `From` yields for a byte region: a buffer holding exactly the
/// given bytes, and not the canonical empty form.
pub proof fn lemma_buffer_from_bytes(v: Vec<u8>)
    ensures
        buffer_from_bytes(v)@ == v@,
        !buffer_from_bytes(v).is_null(),
{
}

impl vstd::std_specs::convert::FromSpecImpl<Vec<u8>> for FfiBuffer {
    open spec fn obeys_from_spec() -> bool {
        true
    }

    open spec fn from_spec(v: Vec<u8>) -> FfiBuffer {
        buffer_from_bytes(v)
    }
}

impl PartialEq for FfiBuffer {
    /// Length-first equality: buffers of different lengths are never
    /// equal; buffers of equal length are equal exactly when every
    /// byte matches. The canonical empty form equals any zero-length
    /// buffer.
    fn eq(&self, rhs: &Self) -> (r: bool) {
        if self.data.len() != rhs.data.len() {
            return false;
        }
        bytes_eq(self.data.as_slice(), rhs.data.as_slice())
    }
}

impl vstd::std_specs::cmp::PartialEqSpecImpl for FfiBuffer {
    open spec fn obeys_eq_spec() -> bool {
        true
    }

    open spec fn eq_spec(&self, other: &Self) -> bool {
        self@ == other@
    }
}

impl Eq for FfiBuffer {

}

impl PartialOrd for FfiBuffer {
    /// Lexicographic ordering over the bytes, consistent with
    /// equality.
    fn partial_cmp(&self, rhs: &Self) -> (r: Option<Ordering>) {
        Some(compare_bytes(self.data.as_slice(), rhs.data.as_slice()))
    }
}

impl vstd::std_specs::cmp::PartialOrdSpecImpl for FfiBuffer {
    open spec fn obeys_partial_cmp_spec() -> bool {
        true
    }

    open spec fn partial_cmp_spec(&self, other: &Self) -> Option<Ordering> {
        Some(lex_cmp_spec(self@, other@))
    }
}

/// Two buffers of different lengths are never equal, whatever bytes
/// they hold.
pub proof fn lemma_buffer_len_mismatch_not_equal(x: FfiBuffer, y: FfiBuffer)
    requires
        x@.len() != y@.len(),
    ensures
        !x.eq_spec(&y),
{
}

/// Byte-wise equality: two buffers are equal exactly when they have
/// the same length and the same byte at every index.
pub proof fn lemma_buffer_eq_is_bytewise(x: FfiBuffer, y: FfiBuffer)
    ensures
        x.eq_spec(&y) <==> (x@.len() == y@.len() && forall|i: int|
            0 <= i < x@.len() ==> x@[i] == y@[i]),
{
    if x@.len() == y@.len() && (forall|i: int| 0 <= i < x@.len() ==> x@[i] == y@[i]) {
        assert(x@ =~= y@);
    }
}

/// Ordering is consistent with equality: two buffers compare `Equal`
/// exactly when they are equal.
pub proof fn lemma_buffer_cmp_consistent_with_eq(x: FfiBuffer, y: FfiBuffer)
    ensures
        x.partial_cmp_spec(&y) == Some(Ordering::Equal) <==> x.eq_spec(&y),
{
    lemma_lex_cmp_equal_iff(x@, y@);
}

} // verus!
