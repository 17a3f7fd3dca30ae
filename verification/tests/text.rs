use clara::decimal::{decimal_chars, parse_u32_chars, signed_decimal_chars};
use clara::text::{
    chars_of, contains_text, find_char, find_whitespace, has_prefix, is_whitespace_char,
    join_chars, same_text, split_chars, string_of, trimmed, trimmed_start,
};

fn chars(s: &str) -> Vec<char> {
    s.chars().collect()
}

#[test]
fn strings_and_characters_convert_both_ways() {
    assert_eq!(chars_of("a\u{e9}\u{1f4cb}"), vec!['a', '\u{e9}', '\u{1f4cb}']);
    assert_eq!(string_of(&chars("a\u{e9}\u{1f4cb}")), "a\u{e9}\u{1f4cb}");
    assert_eq!(chars_of(""), Vec::<char>::new());
    assert!(same_text(&chars("abc"), "abc"));
    assert!(!same_text(&chars("abc"), "abd"));
    assert!(!same_text(&chars("abc"), "ab"));
}

#[test]
fn white_space_is_what_std_says_it_is() {
    let mut n: u32 = 0;
    while n <= 0x10FFFF {
        if let Some(c) = char::from_u32(n) {
            assert_eq!(is_whitespace_char(c), c.is_whitespace(), "U+{:04X}", n);
        }
        n += 1;
    }
}

#[test]
fn trimming_agrees_with_std() {
    for s in ["", " ", "a", "  a b \t", "\u{a0}x\u{3000}", "\n\n", " a", "a "] {
        assert_eq!(string_of(&trimmed(&chars(s))), s.trim(), "{:?}", s);
        assert_eq!(string_of(&trimmed_start(&chars(s))), s.trim_start(), "{:?}", s);
    }
}

#[test]
fn splitting_agrees_with_std() {
    for s in ["", "/", "a", "a/b", "/a//b/", "Fix the bug /p high /tag work"] {
        let ours: Vec<String> = split_chars(&chars(s), '/').iter().map(string_of).collect();
        let theirs: Vec<String> = s.split('/').map(str::to_string).collect();
        assert_eq!(ours, theirs, "{:?}", s);
        assert_eq!(string_of(&join_chars(&split_chars(&chars(s), '/'), '/')), s);
    }
}

#[test]
fn joining_puts_the_separator_between_neighbours() {
    assert_eq!(string_of(&join_chars(&vec![], ' ')), "");
    assert_eq!(string_of(&join_chars(&vec![chars("a")], ' ')), "a");
    assert_eq!(string_of(&join_chars(&vec![chars("a"), chars(""), chars("b")], ' ')), "a  b");
}

#[test]
fn searching_finds_the_first_occurrence() {
    assert_eq!(find_char(&chars("a/b/c"), '/'), 1);
    assert_eq!(find_char(&chars("abc"), '/'), 3);
    assert_eq!(find_whitespace(&chars("ab\tc d")), 2);
    assert_eq!(find_whitespace(&chars("abc")), 3);
    assert!(has_prefix(&chars("add x"), "add "));
    assert!(!has_prefix(&chars("add"), "add "));
    assert!(has_prefix(&chars("add"), ""));
    assert!(contains_text(&chars("list --help"), "--"));
    assert!(!contains_text(&chars("a-b-c"), "--"));
    assert!(contains_text(&chars("abc"), ""));
    assert!(contains_text(&chars("abc"), "abc"));
    assert!(!contains_text(&chars("ab"), "abc"));
}

#[test]
fn numbers_are_written_in_decimal() {
    assert_eq!(string_of(&decimal_chars(0)), "0");
    assert_eq!(string_of(&decimal_chars(7)), "7");
    assert_eq!(string_of(&decimal_chars(4294967295)), "4294967295");
    assert_eq!(string_of(&decimal_chars(u64::MAX)), u64::MAX.to_string());
    assert_eq!(string_of(&signed_decimal_chars(-12)), "-12");
    assert_eq!(string_of(&signed_decimal_chars(i64::MIN)), i64::MIN.to_string());
    assert_eq!(string_of(&signed_decimal_chars(2025)), "2025");
}

#[test]
fn identifiers_are_read_as_std_reads_them() {
    for s in [
        "", "+", "-", "0", "5", "+5", "-5", "007", "4294967295", "4294967296", "99999999999",
        " 5", "5 ", "5a", "++5", "\u{662}", "18446744073709551616",
    ] {
        assert_eq!(parse_u32_chars(&chars(s)), s.parse::<u32>().ok(), "{:?}", s);
    }
}

#[test]
fn written_identifiers_read_back() {
    for n in [0u32, 1, 9, 10, 99, 100, 65535, 4294967295] {
        assert_eq!(parse_u32_chars(&decimal_chars(n as u64)), Some(n));
    }
}
