//! The secrets of an authorization request: code verifier, code challenge and state.
use crate::text::chars_of;
use base64::Engine;
use rand::Rng;
use sha2::Digest;
use vstd::prelude::*;
use vstd::utf8::encode_utf8;

verus! {

/// The characters that a code verifier is made of.
pub const CHARSET: &'static str =
    "ABCDEFGHIJKLMNOPQRSTUVWXYZabcdefghijklmnopqrstuvwxyz0123456789-._~";

/// The symbols of the URL-safe base64 alphabet, in the order of the values they stand for.
pub const BASE64_SYMBOLS: &'static str =
    "ABCDEFGHIJKLMNOPQRSTUVWXYZabcdefghijklmnopqrstuvwxyz0123456789-_";

/// The fewest characters that a code verifier has.
pub const VERIFIER_MIN: usize = 64;

/// The most characters that a code verifier has.
pub const VERIFIER_MAX: usize = 96;

/// The bytes of chance that a state is made of.
pub const STATE_BYTES: usize = 32;

/// The symbol for a value below 64.
pub open spec fn base64_symbol(n: int) -> char {
    BASE64_SYMBOLS@[n]
}

/// Bytes in URL-safe base64 without padding: every three bytes are four symbols, and one or two
/// bytes at the end are two or three.
pub open spec fn base64url(b: Seq<u8>) -> Seq<char>
    decreases b.len(),
{
    if b.len() == 0 {
        Seq::empty()
    } else if b.len() == 1 {
        seq![base64_symbol(b[0] as int / 4), base64_symbol((b[0] % 4) * 16)]
    } else if b.len() == 2 {
        seq![
            base64_symbol(b[0] as int / 4),
            base64_symbol((b[0] % 4) * 16 + b[1] / 16),
            base64_symbol((b[1] % 16) * 4),
        ]
    } else {
        seq![
            base64_symbol(b[0] as int / 4),
            base64_symbol((b[0] % 4) * 16 + b[1] / 16),
            base64_symbol((b[1] % 16) * 4 + b[2] / 64),
            base64_symbol((b[2] % 64) as int),
        ] + base64url(b.skip(3))
    }
}

/// `base64::Engine::encode` of the engine `URL_SAFE_NO_PAD` writes bytes in URL-safe base64
/// without padding. It panics where the length of the result is more than memory can hold.
#[verifier::external_body]
fn base64_encode(bytes: &[u8]) -> (r: String)
    requires
        bytes@.len() <= usize::MAX / 4,
    ensures
        r@ == base64url(bytes@),
{
    base64::engine::general_purpose::URL_SAFE_NO_PAD.encode(bytes)
}

/// The SHA-256 digest of bytes.
pub uninterp spec fn sha256(bytes: Seq<u8>) -> Seq<u8>;

/// `sha2::Sha256::digest` gives the SHA-256 digest, which has 32 bytes and depends on the given
/// bytes alone. It counts the bits it is given in 64 bits.
#[verifier::external_body]
fn sha256_digest(bytes: &[u8]) -> (r: Vec<u8>)
    requires
        bytes@.len() < 0x2000_0000_0000_0000,
    ensures
        r@ == sha256(bytes@),
        r@.len() == 32,
{
    sha2::Sha256::digest(bytes).to_vec()
}

/// The code challenge for a code verifier: its SHA-256 digest in URL-safe base64.
pub open spec fn challenge_of(verifier: Seq<char>) -> Seq<char> {
    base64url(sha256(encode_utf8(verifier)))
}

/// The SHA-256 digest of a text, in URL-safe base64 without padding.
pub fn sha256_base64url(input: &str) -> (r: String)
    requires
        encode_utf8(input@).len() < 0x2000_0000_0000_0000,
    ensures
        r@ == challenge_of(input@),
        r@.len() == 43,
{
    let hash = sha256_digest(input.as_bytes());
    proof {
        base64url_length(hash@);
    }
    base64_encode(hash.as_slice())
}

/// `rand::Rng::gen_range` of the generator that `rand::thread_rng` gives draws a number from the
/// range that it is given, ends included. Which one it draws is left to chance. It panics on an
/// empty range.
#[verifier::external_body]
fn draw_between(low: usize, high: usize) -> (r: usize)
    requires
        low <= high,
    ensures
        low <= r <= high,
{
    rand::thread_rng().gen_range(low..=high)
}

/// `rand::Rng::gen` of the generator that `rand::thread_rng` gives draws a byte. Which one it
/// draws is left to chance.
#[verifier::external_body]
fn draw_byte() -> (r: u8) {
    rand::thread_rng().gen::<u8>()
}

/// The characters that the given positions name in the character set of a code verifier.
pub open spec fn charset_at(picks: Seq<usize>) -> Seq<char> {
    picks.map_values(|i: usize| CHARSET@[i as int])
}

/// The code verifier that the given positions in the character set spell.
pub fn code_verifier_from(picks: &Vec<usize>) -> (r: String)
    requires
        forall|i: int| 0 <= i < picks.len() ==> #[trigger] picks[i] < CHARSET@.len(),
    ensures
        r@ == charset_at(picks@),
{
    let symbols = chars_of(CHARSET);
    let mut r = String::new();
    let mut i: usize = 0;
    while i < picks.len()
        invariant
            i <= picks.len(),
            symbols@ == CHARSET@,
            forall|j: int| 0 <= j < picks.len() ==> #[trigger] picks[j] < CHARSET@.len(),
            r@ == charset_at(picks@.take(i as int)),
        decreases picks.len() - i,
    {
        r.push(symbols[picks[i]]);
        i += 1;
        assert(r@ =~= charset_at(picks@.take(i as int)));
    }
    assert(picks@.take(picks@.len() as int) =~= picks@);
    r
}

/// Whether a text can be drawn as a code verifier.
pub open spec fn is_code_verifier(s: Seq<char>) -> bool {
    &&& VERIFIER_MIN <= s.len() <= VERIFIER_MAX
    &&& forall|i: int| 0 <= i < s.len() ==> CHARSET@.contains(#[trigger] s[i])
}

/// Draws a code verifier: between 64 and 96 characters of the character set.
pub fn generate_code_verifier() -> (r: String)
    ensures
        is_code_verifier(r@),
{
    proof {
        reveal_strlit(
            "ABCDEFGHIJKLMNOPQRSTUVWXYZabcdefghijklmnopqrstuvwxyz0123456789-._~",
        );
    }
    let last: usize = CHARSET.unicode_len() - 1;
    let len: usize = draw_between(VERIFIER_MIN, VERIFIER_MAX);
    let mut picks: Vec<usize> = Vec::new();
    while picks.len() < len
        invariant
            VERIFIER_MIN <= len <= VERIFIER_MAX,
            picks.len() <= len,
            last == CHARSET@.len() - 1,
            forall|i: int| 0 <= i < picks.len() ==> #[trigger] picks[i] < CHARSET@.len(),
        decreases len - picks.len(),
    {
        picks.push(draw_between(0, last));
    }
    code_verifier_from(&picks)
}

/// The state that the given bytes of chance make: the bytes in URL-safe base64.
pub fn state_from(bytes: &Vec<u8>) -> (r: String)
    requires
        bytes@.len() <= usize::MAX / 4,
    ensures
        r@ == base64url(bytes@),
{
    base64_encode(bytes.as_slice())
}

/// Whether a text can be drawn as a state: 32 bytes in URL-safe base64.
pub open spec fn is_state(s: Seq<char>) -> bool {
    exists|b: Seq<u8>| b.len() == STATE_BYTES && s == #[trigger] base64url(b)
}

/// Draws a state.
pub fn generate_state() -> (r: String)
    ensures
        is_state(r@),
{
    let mut bytes: Vec<u8> = Vec::new();
    while bytes.len() < STATE_BYTES
        invariant
            bytes.len() <= STATE_BYTES,
        decreases STATE_BYTES - bytes.len(),
    {
        bytes.push(draw_byte());
    }
    state_from(&bytes)
}

/// The number of symbols that base64 without padding takes.
pub proof fn base64url_length(b: Seq<u8>)
    ensures
        base64url(b).len() == (b.len() * 4 + 2) / 3,
    decreases b.len(),
{
    if b.len() >= 3 {
        base64url_length(b.skip(3));
    }
}

/// The value that a symbol of the URL-safe base64 alphabet stands for.
pub open spec fn base64_value(c: char) -> int {
    if 'A' <= c <= 'Z' {
        c as int - 65
    } else if 'a' <= c <= 'z' {
        c as int - 71
    } else if '0' <= c <= '9' {
        c as int + 4
    } else if c == '-' {
        62
    } else {
        63
    }
}

/// The bytes that a text in URL-safe base64 without padding stands for.
pub open spec fn base64url_decode(s: Seq<char>) -> Seq<u8>
    decreases s.len(),
{
    if s.len() < 2 {
        Seq::empty()
    } else {
        let a = (base64_value(s[0]) * 4 + base64_value(s[1]) / 16) as u8;
        if s.len() == 2 {
            seq![a]
        } else {
            let b = ((base64_value(s[1]) % 16) * 16 + base64_value(s[2]) / 4) as u8;
            if s.len() == 3 {
                seq![a, b]
            } else {
                let c = ((base64_value(s[2]) % 4) * 64 + base64_value(s[3])) as u8;
                seq![a, b, c] + base64url_decode(s.skip(4))
            }
        }
    }
}

/// Base64 loses nothing: decoding gives back the bytes, so different bytes make different
/// states and different digests make different challenges.
pub proof fn base64url_is_reversible(b: Seq<u8>)
    ensures
        base64url_decode(base64url(b)) == b,
    decreases b.len(),
{
    reveal_strlit("ABCDEFGHIJKLMNOPQRSTUVWXYZabcdefghijklmnopqrstuvwxyz0123456789-_");
    assert forall|n: int| 0 <= n < 64 implies base64_value(#[trigger] base64_symbol(n)) == n by {}
    let s = base64url(b);
    base64url_length(b);
    if b.len() >= 3 {
        base64url_is_reversible(b.skip(3));
        assert(s.skip(4) =~= base64url(b.skip(3)));
        assert(base64url_decode(s) =~= b);
    } else {
        assert(base64url_decode(s) =~= b);
    }
}

/// A state has 43 symbols.
pub proof fn state_length(s: Seq<char>)
    requires
        is_state(s),
    ensures
        s.len() == 43,
{
    let b = choose|b: Seq<u8>| b.len() == STATE_BYTES && s == #[trigger] base64url(b);
    base64url_length(b);
}

/// Whether a character is one of those that RFC 7636 allows in a code verifier.
pub open spec fn unreserved(c: char) -> bool {
    ||| 'A' <= c <= 'Z'
    ||| 'a' <= c <= 'z'
    ||| '0' <= c <= '9'
    ||| c == '-'
    ||| c == '.'
    ||| c == '_'
    ||| c == '~'
}

/// Every code verifier is one that RFC 7636 allows: between 43 and 128 unreserved characters.
pub proof fn code_verifiers_are_allowed(s: Seq<char>)
    requires
        is_code_verifier(s),
    ensures
        43 <= s.len() <= 128,
        forall|i: int| 0 <= i < s.len() ==> unreserved(#[trigger] s[i]),
{
    reveal_strlit("ABCDEFGHIJKLMNOPQRSTUVWXYZabcdefghijklmnopqrstuvwxyz0123456789-._~");
    assert forall|i: int| 0 <= i < s.len() implies unreserved(#[trigger] s[i]) by {
        let k = choose|k: int| 0 <= k < CHARSET@.len() && CHARSET@[k] == s[i];
        assert(CHARSET@[k] == s[i]);
    }
}

} // verus!
