use indeed_mcp::text::{
    chars_of, copy_opt, decimal_text, escape_double_quotes, is_white_space, read_second_word,
    read_usize_from, same_text, starts_ignoring_case, text_between,
};

#[test]
fn white_space_is_that_of_char() {
    for n in 0..=0x10ffff_u32 {
        if let Some(c) = char::from_u32(n) {
            assert_eq!(is_white_space(c), c.is_whitespace(), "{n:x}");
        }
    }
}

#[test]
fn numbers_are_written_in_decimal() {
    for n in [0, 9, 10, 25, 4_294_967_295, u64::MAX] {
        assert_eq!(decimal_text(n), n.to_string());
    }
}

#[test]
fn quotes_get_a_backslash() {
    for s in ["", "plain", "a \"b\" c", "\"", "\\\"", "caf\u{e9} \u{1f600}\""] {
        assert_eq!(escape_double_quotes(s), s.replace('"', r#"\""#));
    }
}

#[test]
fn different_texts_stay_different_when_quoted() {
    assert_ne!(escape_double_quotes("\\\""), escape_double_quotes("\""));
    assert_eq!(escape_double_quotes("\\\""), "\\\\\"");
}

#[test]
fn second_words_are_found() {
    for s in [
        "",
        "GET",
        "GET /callback?code=x HTTP/1.1",
        "  GET\t /a\u{3000}b  ",
        " GET  ",
        "a\u{85}b",
        "a b",
    ] {
        let expected = s.split_whitespace().nth(1).map(|w| w.to_string());
        assert_eq!(read_second_word(s), expected, "{s:?}");
    }
}

#[test]
fn lengths_are_read_like_numbers() {
    for s in [
        "", " 12 ", "+7", "+", "-1", "-0", "0", "007", "1 2", "12x", " \u{a0}34\t", "٣",
        "18446744073709551615", "18446744073709551616", "99999999999999999999999",
        "184467440737095516150", "++1",
    ] {
        assert_eq!(read_usize_from(s, 0), s.trim().parse::<usize>().ok(), "{s:?}");
    }
    assert_eq!(read_usize_from("Content-Length: 42", 15), Some(42));
}

#[test]
fn header_names_match_in_any_case() {
    assert!(starts_ignoring_case("Content-Length: 3", "content-length:"));
    assert!(starts_ignoring_case("CONTENT-LENGTH:3", "content-length:"));
    assert!(!starts_ignoring_case("Content-Length", "content-length:"));
    assert!(!starts_ignoring_case("X-Content-Length: 3", "content-length:"));
}

#[test]
fn only_ascii_letters_lower_to_the_letters_of_the_header_name() {
    for n in 0x80..=0x10ffff_u32 {
        if let Some(c) = char::from_u32(n) {
            let first = c.to_lowercase().next();
            assert!(!"content-length:".chars().any(|x| Some(x) == first), "{n:x}");
        }
    }
}

#[test]
fn small_helpers() {
    assert_eq!(chars_of("a\u{e9}"), vec!['a', '\u{e9}']);
    assert_eq!(text_between(&vec!['a', 'b', 'c'], 1, 3), "bc");
    assert!(same_text("abc", "abc"));
    assert!(!same_text("abc", "abd"));
    assert_eq!(copy_opt(&Some("x".to_string())), Some("x".to_string()));
    assert_eq!(copy_opt(&None), None);
}
