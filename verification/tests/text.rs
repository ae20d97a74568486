use windbg_mcp_rs::text::{
    all_digits, decimal_text, is_whitespace, order, same_ignoring_case, strip, take_before, trim,
    without_prefix, without_suffix, CharClass, TextOrder,
};

#[test]
fn white_space_is_that_of_std() {
    for code in 0..=0x10_ffff_u32 {
        if let Some(c) = char::from_u32(code) {
            assert_eq!(is_whitespace(c), c.is_whitespace());
        }
    }
}

#[test]
fn trimming_is_that_of_std() {
    for text in ["", " ", " a ", "\u{a0}x y\u{3000}", "x", "\t\r\n x\n"] {
        assert_eq!(trim(text), text.trim());
        assert_eq!(trim(trim(text)), trim(text));
    }
    assert_eq!(strip("\"\"a\"b\"", CharClass::Only('"')), "a\"b");
    assert_eq!(take_before("a,b}c", CharClass::Either(',', '}')), "a");
    assert_eq!(take_before("abc", CharClass::Only(',')), "abc");
}

#[test]
fn prefixes_and_suffixes_are_those_of_std() {
    for (text, part) in [("abc", "ab"), ("abc", "bc"), ("", ""), ("a", "ab"), ("\u{e9}x", "\u{e9}")]
    {
        assert_eq!(without_prefix(text, part), text.strip_prefix(part));
        assert_eq!(without_suffix(text, part), text.strip_suffix(part));
    }
}

#[test]
fn case_is_ignored_for_ascii_alone() {
    for (a, b) in [("Help", "hELP"), ("a", "b"), ("\u{e9}", "\u{c9}"), ("", ""), ("aa", "a")] {
        assert_eq!(same_ignoring_case(a, b), a.eq_ignore_ascii_case(b));
    }
}

#[test]
fn numbers_are_written_in_decimal() {
    for n in [0, 9, 10, 1234567890, u64::MAX] {
        assert_eq!(decimal_text(n), n.to_string());
        assert!(all_digits(&decimal_text(n)));
    }
    assert!(!all_digits(""));
    assert!(!all_digits("1 "));
}

#[test]
fn texts_are_ordered_as_std_orders_them() {
    for (a, b) in [("", ""), ("", "a"), ("a", "b"), ("ab", "a"), ("\u{e9}", "z"), ("x", "x")] {
        let expected = match a.cmp(b) {
            std::cmp::Ordering::Less => TextOrder::Before,
            std::cmp::Ordering::Equal => TextOrder::Same,
            std::cmp::Ordering::Greater => TextOrder::After,
        };
        assert_eq!(order(a, b), expected);
    }
}
