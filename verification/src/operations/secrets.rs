//! The secrets of an authorization: what is drawn, and what is shown of it.
use crate::pkce::{
    base64_symbol, base64url, base64url_length, code_verifier_from, code_verifiers_are_allowed,
    generate_code_verifier, generate_state, is_code_verifier, is_state, sha256, sha256_base64url,
    state_from, unreserved, CHARSET,
};
use vstd::prelude::*;
use vstd::utf8::encode_utf8;

verus! {

/// The byte at a place in a row of bytes, and zero behind its end.
pub open spec fn byte_at(b: Seq<u8>, k: int) -> int {
    if 0 <= k < b.len() {
        b[k] as int
    } else {
        0
    }
}

/// The six bits at the given place, where a row of bytes is cut into groups of six bits, from the
/// highest bit of the first byte on, and filled up with zeros at its end.
pub open spec fn six_bits(b: Seq<u8>, i: int) -> int {
    let k = i / 4 * 3;
    let three = byte_at(b, k) * 65536 + byte_at(b, k + 1) * 256 + byte_at(b, k + 2);
    if i % 4 == 0 {
        three / 262144
    } else if i % 4 == 1 {
        three / 4096 % 64
    } else if i % 4 == 2 {
        three / 64 % 64
    } else {
        three % 64
    }
}

/// Whether a text is a row of bytes in URL-safe base64 without padding: a symbol for every six
/// bits, the last of which may be filled up.
pub open spec fn spells(s: Seq<char>, b: Seq<u8>) -> bool {
    &&& s.len() == (b.len() * 8 + 5) / 6
    &&& forall|i: int|
        0 <= i < s.len() ==> #[trigger] s[i]
            == "ABCDEFGHIJKLMNOPQRSTUVWXYZabcdefghijklmnopqrstuvwxyz0123456789-_"@[six_bits(b, i)]
}

proof fn cut(x: int, y: int, z: int)
    requires
        0 <= x < 256,
        0 <= y < 256,
        0 <= z < 256,
    ensures
        (x * 65536 + y * 256 + z) / 262144 == x / 4,
        (x * 65536 + y * 256 + z) / 4096 % 64 == (x % 4) * 16 + y / 16,
        (x * 65536 + y * 256 + z) / 64 % 64 == (y % 16) * 4 + z / 64,
        (x * 65536 + y * 256 + z) % 64 == z % 64,
{
    let three = x * 65536 + y * 256 + z;
    assert(three / 4096 == x * 16 + y / 16);
    assert(three / 64 == x * 1024 + y * 4 + z / 64);
}

proof fn first_symbols(b: Seq<u8>, i: int)
    requires
        0 <= i < base64url(b).len(),
        i < 4,
    ensures
        base64url(b)[i] == base64_symbol(six_bits(b, i)),
{
    base64url_length(b);
    cut(byte_at(b, 0), byte_at(b, 1), byte_at(b, 2));
    assert(i / 4 * 3 == 0);
}

proof fn later_symbols(b: Seq<u8>, i: int)
    requires
        i >= 4,
        b.len() >= 3,
    ensures
        six_bits(b, i) == six_bits(b.skip(3), i - 4),
{
    let rest = b.skip(3);
    let k = (i - 4) / 4 * 3;
    assert(i / 4 * 3 == k + 3);
    assert(i % 4 == (i - 4) % 4);
    assert(k >= 0);
    assert(byte_at(rest, k) == byte_at(b, k + 3));
    assert(byte_at(rest, k + 1) == byte_at(b, k + 4));
    assert(byte_at(rest, k + 2) == byte_at(b, k + 5));
}

pub(crate) proof fn base64_spells(b: Seq<u8>)
    ensures
        spells(base64url(b), b),
    decreases b.len(),
{
    base64url_length(b);
    let s = base64url(b);
    if b.len() >= 3 {
        base64_spells(b.skip(3));
    }
    assert forall|i: int| 0 <= i < s.len() implies #[trigger] s[i] == base64_symbol(
        six_bits(b, i),
    ) by {
        if i < 4 {
            first_symbols(b, i);
        } else {
            later_symbols(b, i);
            assert(s[i] == base64url(b.skip(3))[i - 4]);
        }
    }
}

/// A state spells its bytes in base64.
pub proof fn states_spell_their_bytes(bytes: &Vec<u8>, r: String)
    requires
        call_ensures(state_from, (bytes,), r),
    ensures
        spells(r@, bytes@),
{
    base64_spells(bytes@);
}

/// The challenge of a secret spells the SHA-256 digest of its UTF-8 bytes.
pub proof fn challenges_spell_the_digest(input: &str, r: String)
    requires
        call_ensures(sha256_base64url, (input,), r),
    ensures
        spells(r@, sha256(encode_utf8(input@))),
        r@.len() == 43,
{
    base64_spells(sha256(encode_utf8(input@)));
}

/// The challenge of a secret is the digest of that secret, spelled.
pub proof fn challenges_belong_to_their_secret(verifier: Seq<char>)
    ensures
        spells(crate::pkce::challenge_of(verifier), sha256(encode_utf8(verifier))),
{
    base64_spells(sha256(encode_utf8(verifier)));
}

/// A drawn state spells 32 bytes.
pub proof fn drawn_states_spell_thirty_two_bytes(r: String)
    requires
        call_ensures(generate_state, (), r),
    ensures
        exists|b: Seq<u8>| b.len() == 32 && #[trigger] spells(r@, b),
{
    let b = choose|b: Seq<u8>| b.len() == 32 && r@ == #[trigger] base64url(b);
    base64_spells(b);
}

/// A code verifier has, for each of the given places, the character at that place of the set.
pub proof fn verifiers_are_picked_from_the_set(picks: &Vec<usize>, r: String)
    requires
        call_ensures(code_verifier_from, (picks,), r),
    ensures
        r@.len() == picks@.len(),
        forall|i: int|
            0 <= i < r@.len() ==> #[trigger] r@[i]
                == "ABCDEFGHIJKLMNOPQRSTUVWXYZabcdefghijklmnopqrstuvwxyz0123456789-._~"@[picks@[i] as int],
{
}

/// A drawn code verifier has between 64 and 96 characters, all of them unreserved.
pub proof fn drawn_verifiers_are_long_enough(r: String)
    requires
        call_ensures(generate_code_verifier, (), r),
    ensures
        64 <= r@.len() <= 96,
        forall|i: int|
            0 <= i < r@.len() ==> {
                let c = #[trigger] r@[i];
                ||| 'A' <= c <= 'Z'
                ||| 'a' <= c <= 'z'
                ||| '0' <= c <= '9'
                ||| "-._~"@.contains(c)
            },
{
    reveal_strlit("ABCDEFGHIJKLMNOPQRSTUVWXYZabcdefghijklmnopqrstuvwxyz0123456789-._~");
    reveal_strlit("-._~");
    code_verifiers_are_allowed(r@);
    let marks = "-._~"@;
    assert(marks[0] == '-' && marks[1] == '.' && marks[2] == '_' && marks[3] == '~');
}

/// Every unreserved character can be picked.
pub proof fn every_unreserved_character_can_be_picked(c: char)
    requires
        'A' <= c <= 'Z' || 'a' <= c <= 'z' || '0' <= c <= '9' || c == '-' || c == '.' || c == '_'
            || c == '~',
    ensures
        CHARSET@.contains(c),
        CHARSET@.len() == 66,
{
    reveal_strlit("ABCDEFGHIJKLMNOPQRSTUVWXYZabcdefghijklmnopqrstuvwxyz0123456789-._~");
    let n = c as int;
    if 'A' <= c <= 'Z' {
        assert(CHARSET@[n - 65] == c);
    } else if 'a' <= c <= 'z' {
        assert(CHARSET@[n - 71] == c);
    } else if '0' <= c <= '9' {
        assert(CHARSET@[n + 4] == c);
    } else if c == '-' {
        assert(CHARSET@[62] == c);
    } else if c == '.' {
        assert(CHARSET@[63] == c);
    } else if c == '_' {
        assert(CHARSET@[64] == c);
    } else {
        assert(CHARSET@[65] == c);
    }
}

/// Any places that lie in the set can be picked, and any bytes that fit in memory four times make
/// a state.
pub proof fn all_secrets_can_be_spelled(picks: &Vec<usize>, bytes: &Vec<u8>)
    requires
        forall|i: int| 0 <= i < picks@.len() ==> #[trigger] picks@[i] < 66,
        bytes@.len() <= usize::MAX / 4,
    ensures
        call_requires(code_verifier_from, (picks,)),
        call_requires(state_from, (bytes,)),
{
    reveal_strlit("ABCDEFGHIJKLMNOPQRSTUVWXYZabcdefghijklmnopqrstuvwxyz0123456789-._~");
}

/// What can be drawn as a code verifier is exactly what has between 64 and 96 characters, all of
/// them unreserved.
pub proof fn code_verifiers_are_what_can_be_picked(s: Seq<char>)
    ensures
        is_code_verifier(s) <==> {
            &&& 64 <= s.len() <= 96
            &&& forall|i: int|
                0 <= i < s.len() ==> {
                    let c = #[trigger] s[i];
                    ||| 'A' <= c <= 'Z'
                    ||| 'a' <= c <= 'z'
                    ||| '0' <= c <= '9'
                    ||| c == '-'
                    ||| c == '.'
                    ||| c == '_'
                    ||| c == '~'
                }
        },
{
    if is_code_verifier(s) {
        code_verifiers_are_allowed(s);
        assert forall|i: int| 0 <= i < s.len() implies {
            let c = #[trigger] s[i];
            ||| 'A' <= c <= 'Z'
            ||| 'a' <= c <= 'z'
            ||| '0' <= c <= '9'
            ||| c == '-'
            ||| c == '.'
            ||| c == '_'
            ||| c == '~'
        } by {
            assert(unreserved(s[i]));
        }
    }
    if 64 <= s.len() <= 96 && forall|i: int|
        0 <= i < s.len() ==> {
            let c = #[trigger] s[i];
            ||| 'A' <= c <= 'Z'
            ||| 'a' <= c <= 'z'
            ||| '0' <= c <= '9'
            ||| c == '-'
            ||| c == '.'
            ||| c == '_'
            ||| c == '~'
        } {
        assert forall|i: int| 0 <= i < s.len() implies CHARSET@.contains(#[trigger] s[i]) by {
            every_unreserved_character_can_be_picked(s[i]);
        }
    }
}

/// What can be drawn as a state spells 32 bytes, and whatever bytes they are it can be drawn.
pub proof fn states_are_what_thirty_two_bytes_spell(s: Seq<char>, b: Seq<u8>)
    requires
        b.len() == 32,
    ensures
        is_state(s) ==> exists|c: Seq<u8>| c.len() == 32 && #[trigger] spells(s, c),
        spells(s, b) ==> is_state(s),
{
    if is_state(s) {
        let c = choose|c: Seq<u8>| c.len() == 32 && s == #[trigger] base64url(c);
        base64_spells(c);
    }
    if spells(s, b) {
        base64_spells(b);
        assert(s =~= base64url(b));
    }
}

} // verus!
