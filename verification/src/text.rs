//! Text as sequences of characters: building strings, and the small readers that requests need.
use vstd::prelude::*;

verus! {

/// `String::push` appends the given character to the end of the string.
pub assume_specification[ String::push ](s: &mut String, c: char)
    ensures
        final(s)@ == old(s)@.push(c),
;

/// The text of an optional string.
pub open spec fn opt_text(o: Option<String>) -> Option<Seq<char>> {
    match o {
        Some(s) => Some(s@),
        None => None,
    }
}

/// The texts of a list of strings.
pub open spec fn texts(v: Seq<String>) -> Seq<Seq<char>> {
    v.map_values(|s: String| s@)
}

/// The texts of a list of name and value pairs.
pub open spec fn pair_texts(v: Seq<(String, String)>) -> Seq<(Seq<char>, Seq<char>)> {
    v.map_values(|p: (String, String)| (p.0@, p.1@))
}

/// A copy of an optional string.
pub fn copy_opt(o: &Option<String>) -> (r: Option<String>)
    ensures
        opt_text(r) == opt_text(*o),
{
    match o {
        Some(s) => Some(s.clone()),
        None => None,
    }
}

/// The characters of a string, in order.
pub fn chars_of(s: &str) -> (r: Vec<char>)
    ensures
        r@ == s@,
{
    let mut r: Vec<char> = Vec::new();
    for c in it: s.chars()
        invariant
            r@ == s@.take(it.index()),
            it.seq() == s@,
    {
        proof {
            assert(s@.take(it.index() + 1) =~= s@.take(it.index()).push(c));
        }
        r.push(c);
    }
    assert(s@.take(s@.len() as int) =~= s@);
    r
}

/// The string made of the characters of `v` from `from` up to, not including, `to`.
pub fn text_between(v: &Vec<char>, from: usize, to: usize) -> (r: String)
    requires
        from <= to <= v.len(),
    ensures
        r@ == v@.subrange(from as int, to as int),
{
    let mut r = String::new();
    let mut i: usize = from;
    while i < to
        invariant
            from <= i <= to <= v.len(),
            r@ == v@.subrange(from as int, i as int),
        decreases to - i,
    {
        assert(v@.subrange(from as int, i + 1) =~= v@.subrange(from as int, i as int).push(
            v@[i as int],
        ));
        r.push(v[i]);
        i += 1;
    }
    r
}

/// Whether two strings hold the same characters.
pub fn same_text(a: &str, b: &str) -> (r: bool)
    ensures
        r == (a@ == b@),
{
    a.to_owned() == b.to_owned()
}

/// The character for one decimal digit.
pub open spec fn digit_char(d: nat) -> char {
    (48 + d) as char
}

/// A natural number in decimal, with no leading zero.
pub open spec fn decimal(n: nat) -> Seq<char>
    decreases n,
{
    if n < 10 {
        seq![digit_char(n)]
    } else {
        decimal(n / 10).push(digit_char(n % 10))
    }
}

/// Writes a number in decimal.
pub fn decimal_text(n: u64) -> (r: String)
    ensures
        r@ == decimal(n as nat),
    decreases n,
{
    let mut r = if n < 10 {
        String::new()
    } else {
        decimal_text(n / 10)
    };
    let d: u8 = (n % 10) as u8;
    r.push((48 + d) as char);
    assert(n < 10 ==> r@ =~= seq![digit_char(n as nat)]);
    r
}

/// The text with a backslash put before each double quote.
pub open spec fn escape_quotes(s: Seq<char>) -> Seq<char>
    decreases s.len(),
{
    if s.len() == 0 {
        Seq::empty()
    } else if s.last() == '"' {
        escape_quotes(s.drop_last()).push('\\').push('"')
    } else {
        escape_quotes(s.drop_last()).push(s.last())
    }
}

/// The text with the character before each double quote taken out.
pub open spec fn unescape_quotes(s: Seq<char>) -> Seq<char>
    decreases s.len(),
{
    if s.len() == 0 {
        Seq::empty()
    } else if s.last() == '"' && s.len() >= 2 {
        unescape_quotes(s.drop_last().drop_last()).push('"')
    } else {
        unescape_quotes(s.drop_last()).push(s.last())
    }
}

/// Puts a backslash before each double quote.
pub fn escape_double_quotes(s: &str) -> (r: String)
    ensures
        r@ == escape_quotes(s@),
{
    let v = chars_of(s);
    let mut r = String::new();
    let mut i: usize = 0;
    while i < v.len()
        invariant
            i <= v.len(),
            v@ == s@,
            r@ == escape_quotes(s@.take(i as int)),
        decreases v.len() - i,
    {
        let c = v[i];
        assert(s@.take(i + 1).drop_last() =~= s@.take(i as int));
        if c == '"' {
            r.push('\\');
        }
        r.push(c);
        i += 1;
    }
    assert(s@.take(s@.len() as int) =~= s@);
    r
}

/// Quoting loses nothing: the quoted text determines the text it came from.
pub proof fn escaping_is_reversible(s: Seq<char>)
    ensures
        unescape_quotes(escape_quotes(s)) == s,
    decreases s.len(),
{
    if s.len() > 0 {
        escaping_is_reversible(s.drop_last());
        let e = escape_quotes(s.drop_last());
        if s.last() == '"' {
            assert(e.push('\\').push('"').drop_last().drop_last() =~= e);
        } else {
            assert(e.push(s.last()).drop_last() =~= e);
        }
        assert(s.drop_last().push(s.last()) =~= s);
    }
}

/// In quoted text every double quote has a backslash before it.
pub proof fn escaped_quotes_follow_a_backslash(s: Seq<char>, i: int)
    requires
        0 <= i < escape_quotes(s).len(),
        escape_quotes(s)[i] == '"',
    ensures
        i > 0,
        escape_quotes(s)[i - 1] == '\\',
    decreases s.len(),
{
    let e = escape_quotes(s.drop_last());
    if i < e.len() {
        escaped_quotes_follow_a_backslash(s.drop_last(), i);
    }
}

/// White space as Unicode defines it.
pub open spec fn is_space(c: char) -> bool {
    let n = c as int;
    ||| 9 <= n <= 13
    ||| n == 32
    ||| n == 0x85
    ||| n == 0xa0
    ||| n == 0x1680
    ||| 0x2000 <= n <= 0x200a
    ||| n == 0x2028
    ||| n == 0x2029
    ||| n == 0x202f
    ||| n == 0x205f
    ||| n == 0x3000
}

/// Whether a character is white space.
pub fn is_white_space(c: char) -> (r: bool)
    ensures
        r == is_space(c),
{
    let n: u32 = c as u32;
    (9 <= n && n <= 13) || n == 32 || n == 0x85 || n == 0xa0 || n == 0x1680 || (0x2000 <= n && n
        <= 0x200a) || n == 0x2028 || n == 0x2029 || n == 0x202f || n == 0x205f || n == 0x3000
}

/// The position of the first character at or after `from` that is white space, or that is not,
/// as `space` says; the length of the text where there is none.
pub open spec fn next_where(s: Seq<char>, from: int, space: bool) -> int
    decreases s.len() - from,
{
    if from >= s.len() {
        s.len() as int
    } else if is_space(s[from]) == space {
        from
    } else {
        next_where(s, from + 1, space)
    }
}

/// Where the first word at or after `from` starts.
pub open spec fn word_start(s: Seq<char>, from: int) -> int {
    next_where(s, from, false)
}

/// Where the word that starts at `start` ends.
pub open spec fn word_end(s: Seq<char>, start: int) -> int {
    next_where(s, start, true)
}

/// The second of the words that white space separates, if the text has two.
pub open spec fn second_word(s: Seq<char>) -> Option<Seq<char>> {
    let first_end = word_end(s, word_start(s, 0));
    let start = word_start(s, first_end);
    if start < s.len() {
        Some(s.subrange(start, word_end(s, start)))
    } else {
        None
    }
}

fn find_where(v: &Vec<char>, from: usize, space: bool) -> (r: usize)
    requires
        from <= v.len(),
    ensures
        r == next_where(v@, from as int, space),
        from <= r <= v.len(),
{
    let mut i: usize = from;
    while i < v.len()
        invariant
            from <= i <= v.len(),
            next_where(v@, from as int, space) == next_where(v@, i as int, space),
        decreases v.len() - i,
    {
        if is_white_space(v[i]) == space {
            return i;
        }
        i += 1;
    }
    i
}

/// Reads the second of the words that white space separates.
pub fn read_second_word(s: &str) -> (r: Option<String>)
    ensures
        opt_text(r) == second_word(s@),
{
    let v = chars_of(s);
    let a: usize = find_where(&v, 0, false);
    let b: usize = find_where(&v, a, true);
    let start: usize = find_where(&v, b, false);
    if start < v.len() {
        let end: usize = find_where(&v, start, true);
        Some(text_between(&v, start, end))
    } else {
        None
    }
}

/// The text without the white space at its two ends.
pub open spec fn trimmed(s: Seq<char>) -> Seq<char>
    decreases s.len(),
{
    if s.len() > 0 && is_space(s[0]) {
        trimmed(s.drop_first())
    } else if s.len() > 0 && is_space(s.last()) {
        trimmed(s.drop_last())
    } else {
        s
    }
}

/// Whether a character is a decimal digit.
pub open spec fn is_digit(c: char) -> bool {
    '0' <= c <= '9'
}

/// The number that a row of decimal digits stands for.
pub open spec fn digits_value(s: Seq<char>) -> nat
    decreases s.len(),
{
    if s.len() == 0 {
        0
    } else {
        digits_value(s.drop_last()) * 10 + (s.last() as nat - 48) as nat
    }
}

/// The number that one or more digits stand for, where a `usize` can hold it.
pub open spec fn digits_usize(s: Seq<char>) -> Option<usize> {
    if s.len() > 0 && (forall|i: int| 0 <= i < s.len() ==> is_digit(#[trigger] s[i]))
        && digits_value(s) <= usize::MAX {
        Some(digits_value(s) as usize)
    } else {
        None
    }
}

/// The number that a text stands for: an optional plus sign, then one or more digits.
pub open spec fn usize_value(s: Seq<char>) -> Option<usize> {
    if s.len() > 0 && s[0] == '+' {
        digits_usize(s.drop_first())
    } else {
        digits_usize(s)
    }
}

proof fn digits_value_grows(s: Seq<char>, n: int)
    requires
        0 <= n <= s.len(),
        forall|i: int| 0 <= i < s.len() ==> is_digit(#[trigger] s[i]),
    ensures
        digits_value(s.take(n)) <= digits_value(s),
    decreases s.len() - n,
{
    if n < s.len() {
        digits_value_grows(s, n + 1);
        assert(s.take(n + 1).drop_last() =~= s.take(n));
    } else {
        assert(s.take(n) =~= s);
    }
}

/// Reads a number from the characters of `v` between `from` and `to`.
fn read_digits_between(v: &Vec<char>, from: usize, to: usize) -> (r: Option<usize>)
    requires
        from <= to <= v.len(),
    ensures
        r == digits_usize(v@.subrange(from as int, to as int)),
{
    let ghost digits = v@.subrange(from as int, to as int);
    if from == to {
        return None;
    }
    let mut n: usize = 0;
    let mut i: usize = from;
    while i < to
        invariant
            from <= i <= to <= v.len(),
            from < to,
            digits == v@.subrange(from as int, to as int),
            n == digits_value(digits.take(i - from)),
            forall|j: int| 0 <= j < i - from ==> is_digit(#[trigger] digits[j]),
        decreases to - i,
    {
        let c = v[i];
        assert(digits[i - from] == c);
        assert(digits.take(i + 1 - from).drop_last() =~= digits.take(i - from));
        if !('0' <= c && c <= '9') {
            return None;
        }
        let d: usize = (c as u32 - 48) as usize;
        proof {
            if forall|j: int| 0 <= j < digits.len() ==> is_digit(#[trigger] digits[j]) {
                digits_value_grows(digits, i + 1 - from);
            }
        }
        match n.checked_mul(10) {
            None => {
                return None;
            },
            Some(m) => match m.checked_add(d) {
                None => {
                    return None;
                },
                Some(k) => {
                    n = k;
                },
            },
        }
        i += 1;
    }
    assert(digits.take(to - from) =~= digits);
    Some(n)
}

/// Trims the characters of `s` from `from` on and reads a number from what is left.
pub fn read_usize_from(s: &str, from: usize) -> (r: Option<usize>)
    requires
        from <= s@.len(),
    ensures
        r == usize_value(trimmed(s@.skip(from as int))),
{
    let v = chars_of(s);
    let mut a: usize = from;
    let mut b: usize = v.len();
    assert(v@.subrange(a as int, b as int) =~= s@.skip(from as int));
    while a < b && (is_white_space(v[a]) || is_white_space(v[b - 1]))
        invariant
            a <= b <= v.len(),
            v@ == s@,
            trimmed(s@.skip(from as int)) == trimmed(v@.subrange(a as int, b as int)),
        decreases b - a,
    {
        let ghost t = v@.subrange(a as int, b as int);
        if is_white_space(v[a]) {
            assert(t.drop_first() =~= v@.subrange(a + 1, b as int));
            a += 1;
        } else {
            assert(t.drop_last() =~= v@.subrange(a as int, b - 1));
            b -= 1;
        }
    }
    let ghost t = v@.subrange(a as int, b as int);
    if a < b && v[a] == '+' {
        assert(t.drop_first() =~= v@.subrange(a + 1, b as int));
        read_digits_between(&v, a + 1, b)
    } else {
        read_digits_between(&v, a, b)
    }
}

/// An ASCII letter in lower case; any other character as it is.
pub open spec fn ascii_lower(c: char) -> char {
    if 'A' <= c <= 'Z' {
        (c as u32 + 32) as char
    } else {
        c
    }
}

/// Whether `s` begins with `prefix`, which is in lower case, when the case of ASCII letters in
/// `s` is left aside.
pub open spec fn begins_ignoring_case(s: Seq<char>, prefix: Seq<char>) -> bool {
    &&& prefix.len() <= s.len()
    &&& forall|i: int| 0 <= i < prefix.len() ==> ascii_lower(#[trigger] s[i]) == prefix[i]
}

fn lower(c: char) -> (r: char)
    ensures
        r == ascii_lower(c),
{
    if 'A' <= c && c <= 'Z' {
        ((c as u8) + 32) as char
    } else {
        c
    }
}

/// Whether `s` begins with `prefix`, when the case of ASCII letters in `s` is left aside.
pub fn starts_ignoring_case(s: &str, prefix: &str) -> (r: bool)
    ensures
        r == begins_ignoring_case(s@, prefix@),
{
    let v = chars_of(s);
    let p = chars_of(prefix);
    if p.len() > v.len() {
        return false;
    }
    let mut i: usize = 0;
    while i < p.len()
        invariant
            i <= p.len() <= v.len(),
            v@ == s@,
            p@ == prefix@,
            forall|j: int| 0 <= j < i ==> ascii_lower(#[trigger] s@[j]) == prefix@[j],
        decreases p.len() - i,
    {
        if lower(v[i]) != p[i] {
            return false;
        }
        i += 1;
    }
    true
}

} // verus!
