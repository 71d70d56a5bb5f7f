//! Text as bytes: decimal numbers in ASCII, and bytes as UTF-8 strings.

use vstd::prelude::*;
use vstd::utf8::{
    decode_utf8, encode_utf8, encode_utf8_decode_utf8, encode_utf8_valid_utf8, is_ascii_chars,
    is_ascii_chars_encode_utf8, valid_utf8,
};

verus! {

/// The character of one decimal digit.
pub open spec fn digit(d: nat) -> char
    recommends
        d < 10,
{
    ((48 + d) as u8) as char
}

/// A number in decimal, with no sign and no leading zero.
pub open spec fn decimal(n: nat) -> Seq<char>
    decreases n,
{
    if n < 10 {
        seq![digit(n)]
    } else {
        decimal(n / 10).push(digit(n % 10))
    }
}

/// The bytes of a text whose characters are all ASCII: one byte for each.
pub open spec fn ascii_bytes(text: Seq<char>) -> Seq<u8> {
    Seq::new(text.len(), |i: int| text[i] as u8)
}

/// A decimal number is made of ASCII characters.
pub proof fn lemma_decimal_is_ascii(n: nat)
    ensures
        is_ascii_chars(decimal(n)),
        decimal(n).len() >= 1,
    decreases n,
{
    if n >= 10 {
        lemma_decimal_is_ascii(n / 10);
    }
}

/// The bytes of an ASCII text are its UTF-8 encoding, so they decode to
/// the text.
pub proof fn lemma_ascii_bytes_decode(text: Seq<char>)
    requires
        is_ascii_chars(text),
    ensures
        valid_utf8(ascii_bytes(text)),
        decode_utf8(ascii_bytes(text)) == text,
{
    is_ascii_chars_encode_utf8(text);
    assert(encode_utf8(text) =~= ascii_bytes(text));
    encode_utf8_valid_utf8(text);
    encode_utf8_decode_utf8(text);
}

/// Appends the decimal digits of `n` to `out`, in ASCII.
pub fn push_decimal(out: &mut Vec<u8>, n: u32)
    ensures
        final(out)@ == old(out)@ + ascii_bytes(decimal(n as nat)),
    decreases n,
{
    if n >= 10 {
        push_decimal(out, n / 10);
    }
    let d: u8 = (n % 10) as u8;
    out.push(48 + d);
    proof {
        let text = decimal(n as nat);
        lemma_decimal_is_ascii(n as nat);
        if n >= 10 {
            let head = decimal((n / 10) as nat);
            assert(text == head.push(digit((n % 10) as nat)));
            assert(ascii_bytes(text) =~= ascii_bytes(head).push((48 + d) as u8));
            assert(final(out)@ =~= old(out)@ + ascii_bytes(text));
        } else {
            assert(ascii_bytes(text) =~= seq![(48 + d) as u8]);
            assert(final(out)@ =~= old(out)@ + ascii_bytes(text));
        }
    }
}

/// `String::from_utf8` of the standard library, with its error dropped.
/// The call succeeds exactly on well-formed UTF-8, and the string it gives
/// is made of the characters that the bytes encode.
#[verifier::external_body]
pub(crate) fn string_from_utf8(bytes: Vec<u8>) -> (text: Option<String>)
    ensures
        text is Some <==> valid_utf8(bytes@),
        text matches Some(s) ==> s@ == decode_utf8(bytes@),
{
    match String::from_utf8(bytes) {
        Ok(s) => Some(s),
        Err(_) => None,
    }
}

} // verus!
