//! ABI-stable bridge types for data crossing a binary interface boundary.
//!
//! Native container types (growable strings, options, results, slices)
//! have no guaranteed memory layout, so they cannot safely cross a
//! boundary between independently compiled binaries. This crate offers
//! fixed-layout stand-ins with the same semantics: borrowed byte views
//! (read-only and writable), a UTF-8 text view, and tagged encodings of
//! optional and fallible values, each losslessly convertible to and
//! from its native counterpart.

mod buffer;
mod compare;
mod hexfmt;
mod option;
mod result;
mod slice;
mod string;

pub use buffer::FfiBuffer;
pub use buffer::buffer_from_bytes;
pub use buffer::lemma_buffer_from_bytes;
pub use buffer::lemma_buffer_cmp_consistent_with_eq;
pub use buffer::lemma_buffer_eq_is_bytewise;
pub use buffer::lemma_buffer_len_mismatch_not_equal;
pub use compare::bytes_eq;
pub use compare::compare_bytes;
pub use compare::lemma_lex_cmp_equal_iff;
pub use compare::lex_cmp_spec;
pub use hexfmt::chars_of_ascii;
pub use hexfmt::hex_body;
pub use hexfmt::hex_digit;
pub use hexfmt::hex_pair;
pub use hexfmt::hex_render;
pub use option::FfiOption;
pub use option::decode_option;
pub use option::encode_option;
pub use option::lemma_ffi_option_round_trip;
pub use option::lemma_option_round_trip;
pub use result::FfiResult;
pub use result::decode_result;
pub use result::encode_result;
pub use result::lemma_ffi_result_round_trip;
pub use result::lemma_result_round_trip;
pub use slice::FfiByteSlice;
pub use slice::lemma_slice_cmp_consistent_with_eq;
pub use slice::lemma_slice_eq_is_bytewise;
pub use slice::lemma_slice_len_mismatch_not_equal;
pub use string::FfiString;
pub use string::lemma_text_cmp_consistent_with_eq;
pub use string::lemma_text_from_str;
pub use string::quoted_of;
pub use string::text_from_str;
