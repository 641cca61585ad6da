//! Texts: writing numbers, quoting, and the readers of words and numbers.
use crate::form::{form_byte, form_encode, urlencoding};
use crate::text::{
    ascii_lower, chars_of, copy_opt, decimal, decimal_text, digits_usize, digits_value,
    escape_double_quotes, escape_quotes, is_space, is_white_space, next_where, pair_texts,
    read_second_word, read_usize_from, same_text, starts_ignoring_case, text_between, texts, trimmed,
};
use vstd::prelude::*;
use vstd::utf8::encode_utf8;

verus! {

/// The number that a row of digits names, read from the left.
pub open spec fn number_in(s: Seq<char>) -> int {
    s.fold_left(0int, |n: int, c: char| 10 * n + (c as int - '0' as int))
}

/// Whether a text holds nothing but decimal digits, and at least one.
pub open spec fn all_digits(s: Seq<char>) -> bool {
    s.len() > 0 && forall|i: int| 0 <= i < s.len() ==> '0' <= #[trigger] s[i] <= '9'
}

/// Whether a text is a number in decimal: digits that name the number, and no needless zero.
pub open spec fn writes(s: Seq<char>, n: int) -> bool {
    &&& all_digits(s)
    &&& number_in(s) == n
    &&& s.len() > 1 ==> s[0] != '0'
}

pub(crate) proof fn digits_name_their_value(s: Seq<char>)
    requires
        forall|i: int| 0 <= i < s.len() ==> '0' <= #[trigger] s[i] <= '9',
    ensures
        digits_value(s) == number_in(s),
    decreases s.len(),
{
    reveal_with_fuel(Seq::fold_left, 2);
    if s.len() > 0 {
        digits_name_their_value(s.drop_last());
    }
}

pub(crate) proof fn decimals_are_written(n: nat)
    ensures
        writes(decimal(n), n as int),
        n > 0 ==> decimal(n)[0] != '0',
    decreases n,
{
    reveal_with_fuel(Seq::fold_left, 3);
    let s = decimal(n);
    if n < 10 {
        assert(s.drop_last() =~= Seq::<char>::empty());
    } else {
        decimals_are_written(n / 10);
        assert(s.drop_last() =~= decimal(n / 10));
        assert(s[0] == decimal(n / 10)[0]);
        assert forall|i: int| 0 <= i < s.len() implies '0' <= #[trigger] s[i] <= '9' by {
            if i < s.len() - 1 {
                assert(s[i] == decimal(n / 10)[i]);
            }
        }
    }
}

/// A number is written in decimal.
pub proof fn numbers_are_written_in_decimal(n: u64, r: String)
    requires
        call_ensures(decimal_text, (n,), r),
    ensures
        writes(r@, n as int),
{
    decimals_are_written(n as nat);
}

/// Two numbers that are written alike are the same.
pub proof fn different_numbers_are_written_differently(n: u64, m: u64, r: String, s: String)
    requires
        call_ensures(decimal_text, (n,), r),
        call_ensures(decimal_text, (m,), s),
        r@ == s@,
    ensures
        n == m,
{
    decimals_are_written(n as nat);
    decimals_are_written(m as nat);
}

/// A text with a backslash before each of its double quotes: each character stands for itself,
/// and a double quote is a backslash and a double quote.
pub open spec fn quoted(s: Seq<char>) -> Seq<char> {
    s.fold_left(
        Seq::<char>::empty(),
        |t: Seq<char>, c: char|
            t + (if c == '"' {
                seq!['\\', '"']
            } else {
                seq![c]
            }),
    )
}

pub(crate) proof fn escaped_texts_are_quoted(s: Seq<char>)
    ensures
        escape_quotes(s) == quoted(s),
    decreases s.len(),
{
    reveal_with_fuel(Seq::fold_left, 2);
    if s.len() > 0 {
        escaped_texts_are_quoted(s.drop_last());
        assert(escape_quotes(s) =~= quoted(s));
    }
}

/// Quoting puts a backslash before each double quote and changes nothing else.
pub proof fn quoting_changes_only_double_quotes(s: &str, r: String)
    requires
        call_ensures(escape_double_quotes, (s,), r),
    ensures
        r@ == quoted(s@),
{
    escaped_texts_are_quoted(s@);
}

/// Quoting goes part by part: two texts put together are quoted as each of them is.
pub proof fn parts_are_quoted_on_their_own(a: Seq<char>, b: Seq<char>)
    ensures
        quoted(a + b) == quoted(a) + quoted(b),
    decreases b.len(),
{
    reveal_with_fuel(Seq::fold_left, 2);
    if b.len() == 0 {
        assert(a + b =~= a);
        assert(quoted(a) + quoted(b) =~= quoted(a));
    } else {
        parts_are_quoted_on_their_own(a, b.drop_last());
        assert((a + b).drop_last() =~= a + b.drop_last());
        assert(quoted(a + b) =~= quoted(a) + quoted(b));
    }
}

/// A text without a double quote is not changed by quoting.
pub proof fn texts_without_quotes_stay(s: &str, r: String)
    requires
        call_ensures(escape_double_quotes, (s,), r),
        !s@.contains('"'),
    ensures
        r@ == s@,
{
    unquoted(s@);
}

proof fn unquoted(s: Seq<char>)
    requires
        !s.contains('"'),
    ensures
        escape_quotes(s) == s,
    decreases s.len(),
{
    if s.len() > 0 {
        assert(s[s.len() - 1] == s.last());
        assert(!s.drop_last().contains('"')) by {
            assert forall|i: int| 0 <= i < s.drop_last().len() implies s.drop_last()[i] != '"' by {
                assert(s.drop_last()[i] == s[i]);
            }
        }
        unquoted(s.drop_last());
        assert(escape_quotes(s) =~= s);
    }
}

/// The characters that Unicode counts as white space.
pub open spec fn white(c: char) -> bool {
    ||| '\t' <= c <= '\r'
    ||| c == ' '
    ||| c == '\u{85}'
    ||| c == '\u{a0}'
    ||| c == '\u{1680}'
    ||| '\u{2000}' <= c <= '\u{200a}'
    ||| c == '\u{2028}'
    ||| c == '\u{2029}'
    ||| c == '\u{202f}'
    ||| c == '\u{205f}'
    ||| c == '\u{3000}'
}

/// White space is what Unicode counts as such.
pub proof fn white_space_is_that_of_unicode(c: char, r: bool)
    requires
        call_ensures(is_white_space, (c,), r),
    ensures
        r == white(c),
{
}

/// Whether a text holds nothing but white space.
pub open spec fn blank(s: Seq<char>) -> bool {
    forall|i: int| 0 <= i < s.len() ==> white(#[trigger] s[i])
}

/// Whether a text is a word: one or more characters, none of them white space.
pub open spec fn word(s: Seq<char>) -> bool {
    s.len() > 0 && forall|i: int| 0 <= i < s.len() ==> !white(#[trigger] s[i])
}

/// Whether a text consists of white space, a word, white space, the given second word, and
/// either nothing more or white space and whatever follows it.
pub open spec fn parts_of_line(
    line: Seq<char>,
    lead: Seq<char>,
    first: Seq<char>,
    gap: Seq<char>,
    second: Seq<char>,
    tail: Seq<char>,
) -> bool {
    &&& line == lead + first + gap + second + tail
    &&& blank(lead)
    &&& word(first)
    &&& gap.len() > 0
    &&& blank(gap)
    &&& word(second)
    &&& tail.len() == 0 || white(tail[0])
}

/// Whether a text consists of white space, at most one word, and white space.
pub open spec fn at_most_one_word(
    line: Seq<char>,
    lead: Seq<char>,
    first: Seq<char>,
    tail: Seq<char>,
) -> bool {
    &&& line == lead + first + tail
    &&& blank(lead)
    &&& first.len() == 0 || word(first)
    &&& blank(tail)
}

proof fn stops_at(s: Seq<char>, from: int, space: bool, k: int)
    requires
        0 <= from <= k <= s.len(),
        forall|i: int| from <= i < k ==> white(#[trigger] s[i]) != space,
        k < s.len() ==> white(s[k]) == space,
    ensures
        next_where(s, from, space) == k,
    decreases k - from,
{
    if from < k {
        assert(white(s[from]) != space);
        stops_at(s, from + 1, space, k);
    }
}

pub(crate) proof fn second_words(
    line: Seq<char>,
    lead: Seq<char>,
    first: Seq<char>,
    gap: Seq<char>,
    second: Seq<char>,
    tail: Seq<char>,
)
    requires
        parts_of_line(line, lead, first, gap, second, tail),
    ensures
        crate::text::second_word(line) == Some(second),
{
    let a = lead.len() as int;
    let b = a + first.len();
    let c = b + gap.len();
    let d = c + second.len();
    assert forall|i: int| 0 <= i < a implies white(#[trigger] line[i]) by {
        assert(line[i] == lead[i]);
    }
    assert forall|i: int| a <= i < b implies !white(#[trigger] line[i]) by {
        assert(line[i] == first[i - a]);
    }
    assert forall|i: int| b <= i < c implies white(#[trigger] line[i]) by {
        assert(line[i] == gap[i - b]);
    }
    assert forall|i: int| c <= i < d implies !white(#[trigger] line[i]) by {
        assert(line[i] == second[i - c]);
    }
    if tail.len() > 0 {
        assert(line[d] == tail[0]);
    }
    stops_at(line, 0, false, a);
    stops_at(line, a, true, b);
    stops_at(line, b, false, c);
    stops_at(line, c, true, d);
    assert(line.subrange(c, d) =~= second);
}

pub(crate) proof fn no_second_word(
    line: Seq<char>,
    lead: Seq<char>,
    first: Seq<char>,
    tail: Seq<char>,
)
    requires
        at_most_one_word(line, lead, first, tail),
    ensures
        crate::text::second_word(line) is None,
{
    let a = lead.len() as int;
    let b = a + first.len();
    let n = line.len() as int;
    assert forall|i: int| 0 <= i < a implies white(#[trigger] line[i]) by {
        assert(line[i] == lead[i]);
    }
    assert forall|i: int| a <= i < b implies !white(#[trigger] line[i]) by {
        assert(line[i] == first[i - a]);
    }
    assert forall|i: int| b <= i < n implies white(#[trigger] line[i]) by {
        assert(line[i] == tail[i - b]);
    }
    if first.len() == 0 {
        stops_at(line, 0, false, n);
        stops_at(line, n, true, n);
        stops_at(line, n, false, n);
    } else {
        stops_at(line, 0, false, a);
        stops_at(line, a, true, b);
        stops_at(line, b, false, n);
    }
}

/// The second word of a text is found whatever white space stands around it.
pub proof fn second_words_are_found(
    line: &str,
    lead: Seq<char>,
    first: Seq<char>,
    gap: Seq<char>,
    second: Seq<char>,
    tail: Seq<char>,
    r: Option<String>,
)
    requires
        call_ensures(read_second_word, (line,), r),
        parts_of_line(line@, lead, first, gap, second, tail),
    ensures
        r matches Some(s) && s@ == second,
{
    second_words(line@, lead, first, gap, second, tail);
}

/// A text with fewer than two words has no second word.
pub proof fn single_words_have_no_second(
    line: &str,
    lead: Seq<char>,
    first: Seq<char>,
    tail: Seq<char>,
    r: Option<String>,
)
    requires
        call_ensures(read_second_word, (line,), r),
        at_most_one_word(line@, lead, first, tail),
    ensures
        r is None,
{
    no_second_word(line@, lead, first, tail);
}

/// Whether a text has no white space at its two ends.
pub open spec fn bare(s: Seq<char>) -> bool {
    s.len() == 0 || (!white(s[0]) && !white(s.last()))
}

pub(crate) proof fn trimming(lead: Seq<char>, core: Seq<char>, tail: Seq<char>)
    requires
        blank(lead),
        bare(core),
        blank(tail),
    ensures
        trimmed(lead + core + tail) == core,
    decreases lead.len() + tail.len(),
{
    let s = lead + core + tail;
    if lead.len() > 0 {
        assert(s[0] == lead[0]);
        assert(s.drop_first() =~= lead.drop_first() + core + tail);
        trimming(lead.drop_first(), core, tail);
    } else if tail.len() > 0 {
        assert(s.last() == tail.last());
        assert(white(tail[tail.len() - 1]));
        if core.len() == 0 {
            assert(s =~= tail);
            assert(white(tail[0]));
            assert(s.drop_first() =~= lead + core + tail.drop_first());
            trimming(lead, core, tail.drop_first());
        } else {
            assert(s[0] == core[0]);
            assert(s.drop_last() =~= lead + core + tail.drop_last());
            trimming(lead, core, tail.drop_last());
        }
    } else {
        assert(s =~= core);
    }
}

/// The number that a text names: decimal digits, with or without a plus sign before them.
pub open spec fn named_number(s: Seq<char>) -> Option<int> {
    if all_digits(s) {
        Some(number_in(s))
    } else if s.len() > 0 && s[0] == '+' && all_digits(s.drop_first()) {
        Some(number_in(s.drop_first()))
    } else {
        None
    }
}

proof fn digit_rows(s: Seq<char>)
    ensures
        digits_usize(s) == (if all_digits(s) && number_in(s) <= usize::MAX {
            Some(number_in(s) as usize)
        } else {
            None
        }),
        all_digits(s) ==> number_in(s) >= 0,
{
    if all_digits(s) {
        digits_name_their_value(s);
    } else if s.len() > 0 {
        let i = choose|i: int| 0 <= i < s.len() && !('0' <= #[trigger] s[i] <= '9');
        assert(!crate::text::is_digit(s[i]));
    }
}

pub(crate) proof fn numbers_in_texts(s: Seq<char>)
    ensures
        crate::text::usize_value(s) == (match named_number(s) {
            Some(n) => if n <= usize::MAX {
                Some(n as usize)
            } else {
                None
            },
            None => None,
        }),
        named_number(s) matches Some(n) ==> n >= 0,
{
    digit_rows(s);
    if s.len() > 0 {
        digit_rows(s.drop_first());
        if s[0] == '+' {
            assert(!('0' <= s[0] <= '9'));
        }
    }
}

/// A number is read from a text whatever white space stands around it; what names no number,
/// or one that is too large, gives none.
pub proof fn numbers_are_read_between_white_space(
    s: &str,
    from: usize,
    lead: Seq<char>,
    core: Seq<char>,
    tail: Seq<char>,
    r: Option<usize>,
)
    requires
        call_ensures(read_usize_from, (s, from), r),
        from <= s@.len(),
        s@.skip(from as int) == lead + core + tail,
        blank(lead),
        bare(core),
        blank(tail),
    ensures
        match named_number(core) {
            Some(n) => if n <= usize::MAX {
                r matches Some(k) && k == n
            } else {
                r is None
            },
            None => r is None,
        },
{
    trimming(lead, core, tail);
    numbers_in_texts(core);
}

/// Whether a character is the given one, or the upper-case form of the given letter.
pub open spec fn same_letter(c: char, small: char) -> bool {
    c == small || ('a' <= small <= 'z' && c as int + 32 == small as int)
}

/// Whether a text begins with a name in lower case, whatever the case of its own letters.
pub open spec fn begins_with_name(s: Seq<char>, name: Seq<char>) -> bool {
    &&& name.len() <= s.len()
    &&& forall|i: int| 0 <= i < name.len() ==> same_letter(#[trigger] s[i], name[i])
}

/// Whether a name holds no upper-case letter.
pub open spec fn in_lower_case(name: Seq<char>) -> bool {
    forall|i: int| 0 <= i < name.len() ==> !('A' <= #[trigger] name[i] <= 'Z')
}

pub(crate) proof fn letters_in_lower_case(c: char, small: char)
    requires
        !('A' <= small <= 'Z'),
    ensures
        (ascii_lower(c) == small) == same_letter(c, small),
{
}

pub(crate) proof fn beginnings(s: Seq<char>, name: Seq<char>)
    requires
        in_lower_case(name),
    ensures
        crate::text::begins_ignoring_case(s, name) == begins_with_name(s, name),
{
    if name.len() <= s.len() {
        assert forall|i: int| 0 <= i < name.len() implies (ascii_lower(s[i]) == name[i])
            == same_letter(#[trigger] s[i], name[i]) by {
            assert(!('A' <= name[i] <= 'Z'));
            letters_in_lower_case(s[i], name[i]);
        }
    }
}

/// A text begins with a name whatever the case of its letters.
pub proof fn names_count_in_any_case(s: &str, name: &str, r: bool)
    requires
        call_ensures(starts_ignoring_case, (s, name), r),
        in_lower_case(name@),
    ensures
        r == begins_with_name(s@, name@),
{
    beginnings(s@, name@);
}

/// Two texts are the same where they hold the same characters in the same places.
pub proof fn texts_are_compared_by_their_characters(a: &str, b: &str, r: bool)
    requires
        call_ensures(same_text, (a, b), r),
    ensures
        r == (a@.len() == b@.len() && forall|i: int| 0 <= i < a@.len() ==> a@[i] == b@[i]),
{
    if a@.len() == b@.len() && forall|i: int| 0 <= i < a@.len() ==> a@[i] == b@[i] {
        assert(a@ =~= b@);
    }
}

/// The copy of an optional text holds the same text, or none.
pub proof fn copies_hold_the_same_text(o: &Option<String>, r: Option<String>)
    requires
        call_ensures(copy_opt, (o,), r),
    ensures
        match (*o, r) {
            (Some(a), Some(b)) => a@ == b@,
            (None, None) => true,
            _ => false,
        },
{
}

/// A list of pairs is looked at pair by pair.
pub proof fn pairs_stand_for_themselves(v: Seq<(String, String)>)
    ensures
        pair_texts(v).len() == v.len(),
        forall|i: int| 0 <= i < v.len() ==> #[trigger] pair_texts(v)[i] == (v[i].0@, v[i].1@),
{
}

/// A list of texts is looked at text by text.
pub proof fn lists_stand_for_themselves(v: Seq<String>)
    ensures
        texts(v).len() == v.len(),
        forall|i: int| 0 <= i < v.len() ==> #[trigger] texts(v)[i] == v[i]@,
{
}

/// What stands for a byte in the query of a URL.
pub open spec fn query_symbol(b: u8) -> Seq<char> {
    let c = b as char;
    if 'a' <= c <= 'z' || 'A' <= c <= 'Z' || '0' <= c <= '9' || "*-._"@.contains(c) {
        seq![c]
    } else if c == ' ' {
        seq!['+']
    } else {
        seq!['%', "0123456789ABCDEF"@[b as int / 16], "0123456789ABCDEF"@[b as int % 16]]
    }
}

/// What stands for a row of bytes in the query of a URL.
pub open spec fn query_symbols(bytes: Seq<u8>) -> Seq<char> {
    bytes.fold_left(Seq::<char>::empty(), |t: Seq<char>, b: u8| t + query_symbol(b))
}

proof fn byte_symbols(b: u8)
    ensures
        form_byte(b) == query_symbol(b),
{
    reveal_strlit("*-._");
    reveal_strlit("0123456789ABCDEF");
    let c = b as char;
    let marks = "*-._"@;
    assert(marks.contains(c) <==> (b == 42 || b == 45 || b == 46 || b == 95)) by {
        assert(marks[0] == '*' && marks[1] == '-' && marks[2] == '.' && marks[3] == '_');
    }
    assert(form_byte(b) =~= query_symbol(b));
}

pub(crate) proof fn encoded_bytes(bytes: Seq<u8>)
    ensures
        form_encode(bytes) == query_symbols(bytes),
    decreases bytes.len(),
{
    reveal_with_fuel(Seq::fold_left, 2);
    if bytes.len() > 0 {
        let rest = bytes.drop_last();
        let last = seq![bytes.last()];
        encoded_bytes(rest);
        byte_symbols(bytes.last());
        crate::form::form_encoding_keeps_parts(rest, last);
        assert(rest + last =~= bytes);
        assert(last.drop_first() =~= Seq::<u8>::empty());
        assert(form_encode(last.drop_first()) =~= Seq::<char>::empty());
        assert(form_encode(last) =~= form_byte(bytes.last()));
    }
}

/// A text stands in a query as the symbols of its UTF-8 bytes, one after the other.
pub proof fn texts_stand_in_queries_byte_by_byte(input: &str, r: String)
    requires
        call_ensures(urlencoding, (input,), r),
    ensures
        r@ == query_symbols(encode_utf8(input@)),
{
    encoded_bytes(encode_utf8(input@));
}

/// The characters of a text come each in its place, and those between two places make a text.
pub proof fn texts_are_taken_apart_and_put_together(
    s: &str,
    v: Vec<char>,
    from: usize,
    to: usize,
    r: String,
)
    requires
        call_ensures(chars_of, (s,), v),
        call_ensures(text_between, (&v, from, to), r),
        from <= to <= v@.len(),
    ensures
        v@.len() == s@.len(),
        forall|i: int| 0 <= i < s@.len() ==> #[trigger] v@[i] == s@[i],
        r@.len() == to - from,
        forall|i: int| 0 <= i < r@.len() ==> #[trigger] r@[i] == s@[from + i],
{
}

/// Every text and every number is taken.
pub proof fn every_text_is_taken(
    s: &str,
    t: &str,
    n: u64,
    c: char,
    v: &Vec<char>,
    from: usize,
    to: usize,
    o: &Option<String>,
)
    ensures
        call_requires(decimal_text, (n,)),
        call_requires(escape_double_quotes, (s,)),
        call_requires(is_white_space, (c,)),
        call_requires(read_second_word, (s,)),
        call_requires(starts_ignoring_case, (s, t)),
        call_requires(same_text, (s, t)),
        call_requires(copy_opt, (o,)),
        call_requires(urlencoding, (s,)),
        call_requires(chars_of, (s,)),
        from <= s@.len() ==> call_requires(read_usize_from, (s, from)),
        from <= to <= v@.len() ==> call_requires(text_between, (v, from, to)),
{
}

} // verus!
