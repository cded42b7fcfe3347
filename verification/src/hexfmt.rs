//! Debug rendering shared by the byte views: a byte sequence renders
//! as a bracketed, comma-separated list of two-digit lowercase hex
//! bytes, e.g. `[ 0xab, 0x01 ]`.

use vstd::prelude::*;

verus! {

/// The ASCII code of the lowercase hex digit for `n` (`n < 16`).
pub open spec fn hex_digit(n: u8) -> u8
    recommends
        n < 16,
{
    if n < 10 {
        (48 + n) as u8
    } else {
        (87 + n) as u8
    }
}

/// ASCII bytes read as the characters they encode (sound for codes
/// below 0x80 only).
pub open spec fn chars_of_ascii(s: Seq<u8>) -> Seq<char> {
    s.map_values(|b: u8| b as char)
}

/// The four characters rendering one byte: `0x` then two hex digits.
pub open spec fn hex_pair(b: u8) -> Seq<char> {
    seq![
        '0',
        'x',
        hex_digit(b / 16) as char,
        hex_digit(b % 16) as char,
    ]
}

/// Every byte but the last renders as its hex pair followed by a
/// comma and a space.
pub open spec fn hex_body(s: Seq<u8>) -> Seq<char>
    decreases s.len(),
{
    if s.len() == 0 {
        Seq::empty()
    } else {
        hex_pair(s[0]) + seq![',', ' '] + hex_body(s.drop_first())
    }
}

/// The full rendering: an opening bracket and a space, each byte but
/// the last with a trailing comma-space, the last byte with a trailing
/// space, and a closing bracket.
pub open spec fn hex_render(s: Seq<u8>) -> Seq<char> {
    if s.len() == 0 {
        seq!['[', ' ', ']']
    } else {
        seq!['[', ' '] + hex_body(s.drop_last()) + hex_pair(s.last()) + seq![' ', ']']
    }
}

/// Rendering one more byte appends its hex pair and a comma-space.
proof fn lemma_hex_body_snoc(s: Seq<u8>, x: u8)
    ensures
        hex_body(s.push(x)) == hex_body(s) + hex_pair(x) + seq![',', ' '],
    decreases s.len(),
{
    if s.len() == 0 {
        assert(s.push(x)[0] == x);
        assert(s.push(x).drop_first() =~= Seq::<u8>::empty());
        assert(hex_body(Seq::<u8>::empty()) == Seq::<char>::empty());
        assert(s =~= Seq::<u8>::empty());
        assert(hex_body(s.push(x)) =~= hex_body(s) + hex_pair(x) + seq![',', ' ']);
    } else {
        assert(s.push(x)[0] == s[0]);
        assert(s.push(x).drop_first() =~= s.drop_first().push(x));
        lemma_hex_body_snoc(s.drop_first(), x);
        assert(hex_body(s.push(x)) =~= hex_body(s) + hex_pair(x) + seq![',', ' ']);
    }
}

/// Reading characters off ASCII bytes distributes over concatenation.
proof fn lemma_chars_of_ascii_add(a: Seq<u8>, b: Seq<u8>)
    ensures
        chars_of_ascii(a + b) == chars_of_ascii(a) + chars_of_ascii(b),
{
    assert(chars_of_ascii(a + b) =~= chars_of_ascii(a) + chars_of_ascii(b));
}

/// Appends the four ASCII bytes rendering `b` in hex.
fn push_hex_pair(out: &mut Vec<u8>, b: u8)
    ensures
        final(out)@ == old(out)@ + seq![48u8, 120u8, hex_digit(b / 16), hex_digit(b % 16)],
{
    out.push(48);
    out.push(120);
    let hi: u8 = b >> 4;
    let lo: u8 = b & 0xf;
    proof {
        assert(b >> 4 == b / 16 && (b & 0xf) == b % 16) by (bit_vector);
    }
    let dh: u8 = if hi < 10 {
        48 + hi
    } else {
        87 + hi
    };
    let dl: u8 = if lo < 10 {
        48 + lo
    } else {
        87 + lo
    };
    out.push(dh);
    out.push(dl);
    proof {
        assert(out@ =~= old(out)@ + seq![48u8, 120u8, hex_digit(b / 16), hex_digit(b % 16)]);
    }
}

/// Builds the ASCII bytes of the hex rendering of `data`.
pub fn hex_ascii(data: &[u8]) -> (out: Vec<u8>)
    ensures
        chars_of_ascii(out@) == hex_render(data@),
        forall|i: int| 0 <= i < out@.len() ==> out@[i] < 0x80,
{
    let mut out: Vec<u8> = Vec::new();
    out.push(91);
    out.push(32);
    proof {
        assert(chars_of_ascii(out@) =~= seq!['[', ' ']);
    }
    let n: usize = data.len();
    if n > 0 {
        let mut i: usize = 0;
        proof {
            assert(data@.take(0) =~= Seq::<u8>::empty());
            assert(chars_of_ascii(out@) =~= seq!['[', ' '] + hex_body(data@.take(0)));
        }
        while i < n - 1
            invariant
                n == data@.len(),
                0 < n,
                0 <= i <= n - 1,
                chars_of_ascii(out@) == seq!['[', ' '] + hex_body(data@.take(i as int)),
                forall|k: int| 0 <= k < out@.len() ==> out@[k] < 0x80,
            decreases n - 1 - i,
        {
            let ghost prev = out@;
            push_hex_pair(&mut out, data[i]);
            out.push(44);
            out.push(32);
            proof {
                let b = data@[i as int];
                let four = seq![48u8, 120u8, hex_digit(b / 16), hex_digit(b % 16)];
                assert(out@ =~= prev + (four + seq![44u8, 32u8]));
                lemma_chars_of_ascii_add(prev, four + seq![44u8, 32u8]);
                assert(chars_of_ascii(four + seq![44u8, 32u8]) =~= hex_pair(b) + seq![',', ' ']);
                lemma_hex_body_snoc(data@.take(i as int), b);
                assert(data@.take(i as int + 1) =~= data@.take(i as int).push(b));
                assert(chars_of_ascii(out@) =~= seq!['[', ' '] + hex_body(data@.take(i as int + 1)));
            }
            i += 1;
        }
        let ghost prev = out@;
        push_hex_pair(&mut out, data[n - 1]);
        out.push(32);
        out.push(93);
        proof {
            let b = data@[n - 1];
            let four = seq![48u8, 120u8, hex_digit(b / 16), hex_digit(b % 16)];
            assert(out@ =~= prev + (four + seq![32u8, 93u8]));
            lemma_chars_of_ascii_add(prev, four + seq![32u8, 93u8]);
            assert(chars_of_ascii(four + seq![32u8, 93u8]) =~= hex_pair(b) + seq![' ', ']']);
            assert(data@.take(n - 1) =~= data@.drop_last());
            assert(data@[n - 1] == data@.last());
            assert(chars_of_ascii(out@) =~= hex_render(data@));
        }
    } else {
        out.push(93);
        proof {
            assert(chars_of_ascii(out@) =~= seq!['[', ' ', ']']);
        }
    }
    out
}

/// Relies on `String::from_utf8`: bytes below 0x80 are valid UTF-8 and
/// decode one byte to one character with the same code.
#[verifier::external_body]
pub(crate) fn ascii_to_string(bytes: Vec<u8>) -> (r: String)
    requires
        forall|i: int| 0 <= i < bytes@.len() ==> bytes@[i] < 0x80,
    ensures
        r@ == chars_of_ascii(bytes@),
{
    String::from_utf8(bytes).unwrap()
}

} // verus!
