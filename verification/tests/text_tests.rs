use port_check::text::chars::{
    char_is_whitespace, chars_of, same_chars, same_text, slice_of, string_of,
};
use port_check::text::number::{
    digit_of, push_decimal, push_decimal_two, read_u16, read_u32, read_unsigned,
};
use port_check::text::search::{
    find_in, has_pattern, has_prefix, last_index_of, matches_at, take_after_first,
    take_after_last, take_between,
};
use port_check::text::split::{
    append_chars, join_texts, scan_to_delim, split_fields, split_lines, split_words, trim_text,
    Delim,
};

fn cs(s: &str) -> Vec<char> {
    s.chars().collect()
}

fn strings(parts: &Vec<Vec<char>>) -> Vec<String> {
    parts.iter().map(|p| p.iter().collect()).collect()
}

fn opt_string(part: Option<Vec<char>>) -> Option<String> {
    part.map(|p| p.iter().collect())
}

#[test]
fn chars_and_strings_convert_both_ways() {
    assert_eq!(chars_of("a\u{e9}b"), vec!['a', '\u{e9}', 'b']);
    assert_eq!(chars_of(""), Vec::<char>::new());
    assert_eq!(string_of(&vec!['o', 'k']), "ok");
    assert_eq!(string_of(&chars_of("127.0.0.1:8080")), "127.0.0.1:8080");
}

#[test]
fn slice_of_copies_the_range() {
    assert_eq!(slice_of(&cs("abcdef"), 2, 4), cs("cd"));
    assert_eq!(slice_of(&cs("abcdef"), 3, 3), cs(""));
    assert_eq!(slice_of(&cs("abcdef"), 0, 6), cs("abcdef"));
}

#[test]
fn same_chars_compares_contents() {
    assert!(same_chars(&cs("TCP"), &cs("TCP")));
    assert!(!same_chars(&cs("TCP"), &cs("tcp")));
    assert!(!same_chars(&cs("TCP"), &cs("TCP6")));
    assert!(same_chars(&cs(""), &cs("")));
    assert!(same_text("human", "human"));
    assert!(!same_text("human", "Human"));
}

#[test]
fn whitespace_is_the_unicode_class() {
    for c in [' ', '\t', '\n', '\u{b}', '\u{c}', '\r', '\u{85}', '\u{a0}', '\u{1680}', '\u{2000}',
        '\u{200a}', '\u{2028}', '\u{2029}', '\u{202f}', '\u{205f}', '\u{3000}']
    {
        assert!(char_is_whitespace(c), "{:?}", c);
    }
    for c in ['a', '0', ':', '\0', '\u{8}', '\u{e}', '\u{1f}', '\u{200b}', '\u{feff}'] {
        assert!(!char_is_whitespace(c), "{:?}", c);
    }
}

#[test]
fn whitespace_agrees_with_std_on_every_char() {
    let mut code: u32 = 0;
    while code <= 0x10ffff {
        if let Some(c) = char::from_u32(code) {
            assert_eq!(char_is_whitespace(c), c.is_whitespace(), "{:#x}", code);
        }
        code += 1;
    }
}

#[test]
fn matches_at_checks_one_place() {
    assert!(matches_at(&cs("users:((x"), &cs("users:"), 0));
    assert!(!matches_at(&cs("users:((x"), &cs("users:"), 1));
    assert!(matches_at(&cs("abc"), &cs("c"), 2));
    assert!(!matches_at(&cs("abc"), &cs("cd"), 2));
    assert!(matches_at(&cs("abc"), &cs(""), 3));
    assert!(!matches_at(&cs("abc"), &cs(""), 4));
}

#[test]
fn find_in_gives_the_first_occurrence() {
    assert_eq!(find_in(&cs("abcabc"), &cs("bc"), 0), Some(1));
    assert_eq!(find_in(&cs("abcabc"), &cs("bc"), 2), Some(4));
    assert_eq!(find_in(&cs("abcabc"), &cs("bc"), 5), None);
    assert_eq!(find_in(&cs("abcabc"), &cs("x"), 0), None);
    assert_eq!(find_in(&cs("ab"), &cs("abc"), 0), None);
    assert_eq!(find_in(&cs("abc"), &cs(""), 0), Some(0));
    assert_eq!(find_in(&cs("abc"), &cs(""), 3), Some(3));
    assert_eq!(find_in(&cs("abc"), &cs(""), 4), None);
    assert_eq!(find_in(&cs("aaa"), &cs("aa"), 0), Some(0));
}

#[test]
fn prefix_and_pattern_tests() {
    assert!(has_prefix(&cs("State  Recv-Q"), &cs("State")));
    assert!(!has_prefix(&cs(" State"), &cs("State")));
    assert!(!has_prefix(&cs("Sta"), &cs("State")));
    assert!(has_pattern(&cs("NT Services"), &cs("Services")));
    assert!(!has_pattern(&cs("NT Service"), &cs("Services")));
}

#[test]
fn after_the_first_occurrence() {
    assert_eq!(opt_string(take_after_first(&cs("a=b=c"), &cs("="))), Some("b=c".to_string()));
    assert_eq!(opt_string(take_after_first(&cs("abc"), &cs("="))), None);
    assert_eq!(opt_string(take_after_first(&cs("abc="), &cs("="))), Some(String::new()));
    assert_eq!(
        opt_string(take_after_first(&cs("x users:((a)) users:((b))"), &cs("users:"))),
        Some("((a)) users:((b))".to_string())
    );
}

#[test]
fn between_two_delimiters() {
    assert_eq!(
        opt_string(take_between(&cs("((\"nginx\",pid=12,fd=6))"), &cs("\""), &cs("\""))),
        Some("nginx".to_string())
    );
    assert_eq!(
        opt_string(take_between(&cs("((\"nginx\",pid=12,fd=6))"), &cs("pid="), &cs(","))),
        Some("12".to_string())
    );
    assert_eq!(opt_string(take_between(&cs("a[b]c[d]"), &cs("["), &cs("]"))), Some("b".to_string()));
    assert_eq!(opt_string(take_between(&cs("a[]c"), &cs("["), &cs("]"))), Some(String::new()));
    assert_eq!(opt_string(take_between(&cs("a]b[c"), &cs("["), &cs("]"))), None);
    assert_eq!(opt_string(take_between(&cs("a[bc"), &cs("["), &cs("]"))), None);
    assert_eq!(opt_string(take_between(&cs("abc"), &cs("["), &cs("]"))), None);
    assert_eq!(opt_string(take_between(&cs("\"open"), &cs("\""), &cs("\""))), None);
}

#[test]
fn last_index_and_what_follows_it() {
    assert_eq!(last_index_of(&cs("[::1]:631"), ':'), Some(5));
    assert_eq!(last_index_of(&cs("631"), ':'), None);
    assert_eq!(last_index_of(&cs(":"), ':'), Some(0));
    assert_eq!(opt_string(take_after_last(&cs("[::1]:631"), ':')), Some("631".to_string()));
    assert_eq!(opt_string(take_after_last(&cs("0.0.0.0:"), ':')), Some(String::new()));
    assert_eq!(opt_string(take_after_last(&cs("631"), ':')), None);
}

#[test]
fn scan_to_delim_stops_at_the_separator() {
    assert_eq!(scan_to_delim(&cs("ab cd"), &Delim::Whitespace, 0), 2);
    assert_eq!(scan_to_delim(&cs("ab cd"), &Delim::Whitespace, 2), 2);
    assert_eq!(scan_to_delim(&cs("ab cd"), &Delim::Whitespace, 3), 5);
    assert_eq!(scan_to_delim(&cs("ab cd"), &Delim::Char(':'), 0), 5);
    assert_eq!(scan_to_delim(&cs("ab"), &Delim::Char(':'), 2), 2);
}

#[test]
fn words_are_the_runs_between_separators() {
    let words = split_words(&cs("  LISTEN 0\t128   127.0.0.1:8080 \r"), &Delim::Whitespace);
    assert_eq!(strings(&words), vec!["LISTEN", "0", "128", "127.0.0.1:8080"]);
    assert!(split_words(&cs(""), &Delim::Whitespace).is_empty());
    assert!(split_words(&cs(" \t\n"), &Delim::Whitespace).is_empty());
    let args = split_words(&cs("nginx\0-g\0\0daemon off;\0"), &Delim::Char('\0'));
    assert_eq!(strings(&args), vec!["nginx", "-g", "daemon off;"]);
}

#[test]
fn words_agree_with_split_whitespace() {
    for text in ["", " ", "a", " a", "a ", "a b", "a\u{a0}b  c\u{3000}", "\t\tx\ny\r\nz"] {
        let expected: Vec<String> = text.split_whitespace().map(|w| w.to_string()).collect();
        assert_eq!(strings(&split_words(&cs(text), &Delim::Whitespace)), expected, "{:?}", text);
    }
}

#[test]
fn fields_keep_the_empty_ones() {
    assert_eq!(strings(&split_fields(&cs("root:x:0:0"), &Delim::Char(':'))), vec!["root", "x", "0", "0"]);
    assert_eq!(strings(&split_fields(&cs("a::b:"), &Delim::Char(':'))), vec!["a", "", "b", ""]);
    assert_eq!(strings(&split_fields(&cs(""), &Delim::Char(':'))), vec![""]);
    assert_eq!(strings(&split_fields(&cs(":"), &Delim::Char(':'))), vec!["", ""]);
    assert_eq!(strings(&split_fields(&cs("abc"), &Delim::Char(':'))), vec!["abc"]);
}

#[test]
fn fields_agree_with_split() {
    for text in ["", ":", "a", "a:", ":a", "a:b", "a::b", "::", "root:x:0:0:root:/root:/bin/bash"] {
        let expected: Vec<String> = text.split(':').map(|w| w.to_string()).collect();
        assert_eq!(strings(&split_fields(&cs(text), &Delim::Char(':'))), expected, "{:?}", text);
    }
}

#[test]
fn lines_end_at_line_feeds() {
    assert_eq!(strings(&split_lines(&cs("a\nb\r\n\nc"))), vec!["a", "b", "", "c"]);
    assert_eq!(strings(&split_lines(&cs("a\n"))), vec!["a"]);
    assert_eq!(strings(&split_lines(&cs("\n"))), vec![""]);
    assert!(split_lines(&cs("")).is_empty());
    assert_eq!(strings(&split_lines(&cs("a\r"))), vec!["a\r"]);
    assert_eq!(strings(&split_lines(&cs("a\r\r\nb"))), vec!["a\r", "b"]);
}

#[test]
fn lines_agree_with_std() {
    for text in ["", "\n", "a", "a\n", "a\nb", "a\r\nb\r\n", "\r\n", "a\r", "\n\n", "x\r\ny\rz\n"] {
        let expected: Vec<String> = text.lines().map(|w| w.to_string()).collect();
        assert_eq!(strings(&split_lines(&cs(text))), expected, "{:?}", text);
    }
}

#[test]
fn trim_drops_white_space_at_both_ends() {
    assert_eq!(string_of(&trim_text(&cs("  nginx \r\n"))), "nginx");
    assert_eq!(string_of(&trim_text(&cs("a b"))), "a b");
    assert_eq!(string_of(&trim_text(&cs(" \t "))), "");
    assert_eq!(string_of(&trim_text(&cs(""))), "");
    assert_eq!(string_of(&trim_text(&cs("\u{a0}x\u{3000}"))), "x");
}

#[test]
fn join_puts_the_separator_between_parts() {
    let parts = vec![cs("nginx"), cs("-g"), cs("daemon off;")];
    assert_eq!(string_of(&join_texts(&parts, &cs(" "))), "nginx -g daemon off;");
    assert_eq!(string_of(&join_texts(&vec![cs("one")], &cs(", "))), "one");
    assert_eq!(string_of(&join_texts(&Vec::new(), &cs(", "))), "");
    assert_eq!(string_of(&join_texts(&vec![cs(""), cs("")], &cs("-"))), "-");
}

#[test]
fn append_chars_extends_the_vector() {
    let mut acc = cs("/proc/");
    append_chars(&mut acc, &cs("1234"));
    append_chars(&mut acc, &cs(""));
    assert_eq!(string_of(&acc), "/proc/1234");
}

#[test]
fn numbers_are_read_as_std_reads_them() {
    assert_eq!(read_u16(&cs("8080")), Some(8080));
    assert_eq!(read_u16(&cs("0")), Some(0));
    assert_eq!(read_u16(&cs("+80")), Some(80));
    assert_eq!(read_u16(&cs("0008")), Some(8));
    assert_eq!(read_u16(&cs("65535")), Some(65535));
    assert_eq!(read_u16(&cs("65536")), None);
    assert_eq!(read_u16(&cs("")), None);
    assert_eq!(read_u16(&cs("+")), None);
    assert_eq!(read_u16(&cs("-1")), None);
    assert_eq!(read_u16(&cs("++1")), None);
    assert_eq!(read_u16(&cs("12a")), None);
    assert_eq!(read_u16(&cs(" 12")), None);
    assert_eq!(read_u16(&cs("*")), None);
    assert_eq!(read_u16(&cs("\u{661}\u{662}")), None);
    assert_eq!(read_u32(&cs("4294967295")), Some(4294967295));
    assert_eq!(read_u32(&cs("4294967296")), None);
    assert_eq!(read_u32(&cs("99999999999999999999999999")), None);
    assert_eq!(read_u32(&cs("000000000000000000000000001")), Some(1));
    assert_eq!(read_unsigned(&cs("100"), 99), None);
    assert_eq!(read_unsigned(&cs("99"), 99), Some(99));
    for text in ["8080", "+80", "", "+", "-1", "65535", "65536", "007", "1e3", "0x10"] {
        assert_eq!(read_u16(&cs(text)), text.parse::<u16>().ok(), "{:?}", text);
        assert_eq!(read_u32(&cs(text)), text.parse::<u32>().ok(), "{:?}", text);
    }
}

#[test]
fn numbers_are_written_in_base_ten() {
    for n in [0u64, 7, 10, 99, 100, 8080, 65535, 4294967295, u64::MAX] {
        let mut acc = Vec::new();
        push_decimal(&mut acc, n);
        assert_eq!(string_of(&acc), n.to_string());
    }
    for n in [0u64, 7, 9, 10, 59, 100] {
        let mut acc = cs(":");
        push_decimal_two(&mut acc, n);
        assert_eq!(string_of(&acc), format!(":{:02}", n));
    }
    assert_eq!(digit_of(0), '0');
    assert_eq!(digit_of(9), '9');
}

#[test]
fn written_numbers_are_read_back() {
    for n in [0u32, 1, 9, 10, 443, 8080, 65535, 65536, u32::MAX] {
        let mut acc = Vec::new();
        push_decimal(&mut acc, n as u64);
        assert_eq!(read_u32(&acc), Some(n));
    }
}
