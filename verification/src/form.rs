//! Text in the form in which it can stand in the query of a URL.
use crate::pkce::{base64_symbol, base64url, BASE64_SYMBOLS};
use vstd::prelude::*;
use vstd::utf8::encode_utf8;

verus! {

/// Whether a byte stands for itself in form encoding.
pub open spec fn form_unchanged(b: u8) -> bool {
    ||| b == 42
    ||| b == 45
    ||| b == 46
    ||| 48 <= b <= 57
    ||| 65 <= b <= 90
    ||| b == 95
    ||| 97 <= b <= 122
}

/// A value below 16 as a digit of upper-case hexadecimal.
pub open spec fn hex_digit(n: int) -> char {
    if n < 10 {
        (48 + n) as char
    } else {
        (55 + n) as char
    }
}

/// One byte in form encoding: letters, digits and `*-._` stand for themselves, a space is a
/// plus sign, and every other byte is a percent sign and two hexadecimal digits.
pub open spec fn form_byte(b: u8) -> Seq<char> {
    if form_unchanged(b) {
        seq![b as char]
    } else if b == 32 {
        seq!['+']
    } else {
        seq!['%', hex_digit(b as int / 16), hex_digit(b as int % 16)]
    }
}

/// Bytes in form encoding.
pub open spec fn form_encode(bytes: Seq<u8>) -> Seq<char>
    decreases bytes.len(),
{
    if bytes.len() == 0 {
        Seq::empty()
    } else {
        form_byte(bytes[0]) + form_encode(bytes.drop_first())
    }
}

/// `url::form_urlencoded::byte_serialize` writes bytes in form encoding, piece by piece.
#[verifier::external_body]
fn byte_serialize(bytes: &[u8]) -> (r: String)
    ensures
        r@ == form_encode(bytes@),
{
    url::form_urlencoded::byte_serialize(bytes).collect()
}

/// A text in form encoding: the encoding of its UTF-8 bytes.
pub fn urlencoding(input: &str) -> (r: String)
    ensures
        r@ == form_encode(encode_utf8(input@)),
{
    byte_serialize(input.as_bytes())
}

/// The value of a digit of upper-case hexadecimal.
pub open spec fn hex_value(c: char) -> int {
    if c <= '9' {
        c as int - 48
    } else {
        c as int - 55
    }
}

/// The bytes that a text in form encoding stands for.
pub open spec fn form_decode(s: Seq<char>) -> Seq<u8>
    decreases s.len(),
{
    if s.len() == 0 {
        Seq::empty()
    } else if s[0] == '%' && s.len() >= 3 {
        seq![(hex_value(s[1]) * 16 + hex_value(s[2])) as u8] + form_decode(s.skip(3))
    } else if s[0] == '+' {
        seq![32u8] + form_decode(s.drop_first())
    } else {
        seq![s[0] as u8] + form_decode(s.drop_first())
    }
}

/// Form encoding loses nothing: decoding gives back the bytes.
pub proof fn form_encoding_is_reversible(bytes: Seq<u8>)
    ensures
        form_decode(form_encode(bytes)) == bytes,
    decreases bytes.len(),
{
    if bytes.len() > 0 {
        let rest = form_encode(bytes.drop_first());
        let b = bytes[0];
        let s = form_encode(bytes);
        form_encoding_is_reversible(bytes.drop_first());
        if form_unchanged(b) || b == 32 {
            assert(s.drop_first() =~= rest);
        } else {
            assert(s.skip(3) =~= rest);
            assert(hex_value(hex_digit(b as int / 16)) == b as int / 16);
            assert(hex_value(hex_digit(b as int % 16)) == b as int % 16);
        }
        assert(seq![b] + bytes.drop_first() =~= bytes);
    }
}

/// Form encoding goes byte by byte: the encoding of two parts put together is that of the first
/// and that of the second.
pub proof fn form_encoding_keeps_parts(a: Seq<u8>, b: Seq<u8>)
    ensures
        form_encode(a + b) == form_encode(a) + form_encode(b),
    decreases a.len(),
{
    if a.len() == 0 {
        assert(a + b =~= b);
        assert(form_encode(a) + form_encode(b) =~= form_encode(b));
    } else {
        form_encoding_keeps_parts(a.drop_first(), b);
        assert((a + b).drop_first() =~= a.drop_first() + b);
        assert(form_encode(a + b) =~= form_encode(a) + form_encode(b));
    }
}

/// Whether a character can stand in a query without being taken for anything but itself or for
/// part of an escape.
pub open spec fn query_safe(c: char) -> bool {
    ||| c == '*'
    ||| c == '-'
    ||| c == '.'
    ||| c == '_'
    ||| c == '+'
    ||| c == '%'
    ||| '0' <= c <= '9'
    ||| 'A' <= c <= 'Z'
    ||| 'a' <= c <= 'z'
}

/// Form encoding holds no character that would end or split a query.
pub proof fn form_encoding_is_query_safe(bytes: Seq<u8>, i: int)
    requires
        0 <= i < form_encode(bytes).len(),
    ensures
        query_safe(form_encode(bytes)[i]),
    decreases bytes.len(),
{
    let head = form_byte(bytes[0]);
    if i >= head.len() {
        form_encoding_is_query_safe(bytes.drop_first(), i - head.len());
    }
}

/// URL-safe base64 holds only characters of its alphabet, all of which can stand in a query as
/// they are.
pub proof fn base64url_is_query_safe(b: Seq<u8>, i: int)
    requires
        0 <= i < base64url(b).len(),
    ensures
        BASE64_SYMBOLS@.contains(base64url(b)[i]),
        query_safe(base64url(b)[i]),
        base64url(b)[i] != '+',
        base64url(b)[i] != '%',
    decreases b.len(),
{
    reveal_strlit("ABCDEFGHIJKLMNOPQRSTUVWXYZabcdefghijklmnopqrstuvwxyz0123456789-_");
    assert forall|n: int| 0 <= n < 64 implies {
        let c = #[trigger] base64_symbol(n);
        query_safe(c) && c != '+' && c != '%' && BASE64_SYMBOLS@.contains(c)
    } by {}
    if b.len() >= 3 {
        if i >= 4 {
            base64url_is_query_safe(b.skip(3), i - 4);
        }
    }
}

} // verus!
