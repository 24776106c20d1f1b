use port_check::text::chars::{chars_of, string_of};
use port_check::text::number::{read_u16, read_u32};
use port_check::text::search::{
    find_in, has_pattern, has_prefix, take_after_first, take_after_last, take_between,
};
use port_check::text::split::{
    join_texts, split_fields, split_lines, split_words, trim_text, Delim,
};

struct Source(u64);

impl Source {
    fn next(&mut self) -> u64 {
        self.0 = self.0.wrapping_mul(6364136223846793005).wrapping_add(1442695040888963407);
        self.0 >> 33
    }

    fn text(&mut self, alphabet: &[char], longest: u64) -> String {
        let len = self.next() % (longest + 1);
        (0..len).map(|_| alphabet[(self.next() % alphabet.len() as u64) as usize]).collect()
    }
}

fn strings(parts: &Vec<Vec<char>>) -> Vec<String> {
    parts.iter().map(|p| p.iter().collect()).collect()
}

fn opt_string(part: Option<Vec<char>>) -> Option<String> {
    part.map(|p| p.iter().collect())
}

#[test]
fn random_words_agree_with_split_whitespace() {
    let mut source = Source(1);
    let alphabet = [' ', '\t', '\n', '\r', '\u{a0}', '\u{2003}', 'a', 'b', ':', '0'];
    for _ in 0..2000 {
        let text = source.text(&alphabet, 12);
        let expected: Vec<String> = text.split_whitespace().map(|w| w.to_string()).collect();
        assert_eq!(strings(&split_words(&chars_of(&text), &Delim::Whitespace)), expected, "{:?}", text);
    }
}

#[test]
fn random_words_agree_with_split_and_filter() {
    let mut source = Source(2);
    let alphabet = ['\0', 'a', 'b', ' '];
    for _ in 0..2000 {
        let text = source.text(&alphabet, 10);
        let expected: Vec<String> =
            text.split('\0').filter(|s| !s.is_empty()).map(|w| w.to_string()).collect();
        let words = split_words(&chars_of(&text), &Delim::Char('\0'));
        assert_eq!(strings(&words), expected, "{:?}", text);
        let space = vec![' '];
        assert_eq!(string_of(&join_texts(&words, &space)), expected.join(" "), "{:?}", text);
    }
}

#[test]
fn random_fields_agree_with_split() {
    let mut source = Source(3);
    let alphabet = [':', 'x', '0', ' '];
    for _ in 0..2000 {
        let text = source.text(&alphabet, 10);
        let expected: Vec<String> = text.split(':').map(|w| w.to_string()).collect();
        assert_eq!(strings(&split_fields(&chars_of(&text), &Delim::Char(':'))), expected, "{:?}", text);
    }
}

#[test]
fn random_lines_agree_with_lines() {
    let mut source = Source(4);
    let alphabet = ['\n', '\r', 'a', ' '];
    for _ in 0..4000 {
        let text = source.text(&alphabet, 10);
        let expected: Vec<String> = text.lines().map(|w| w.to_string()).collect();
        assert_eq!(strings(&split_lines(&chars_of(&text))), expected, "{:?}", text);
    }
}

#[test]
fn random_trim_agrees_with_trim() {
    let mut source = Source(5);
    let alphabet = [' ', '\t', '\n', '\u{3000}', 'a', 'b'];
    for _ in 0..2000 {
        let text = source.text(&alphabet, 10);
        assert_eq!(string_of(&trim_text(&chars_of(&text))), text.trim(), "{:?}", text);
    }
}

#[test]
fn random_numbers_agree_with_parse() {
    let mut source = Source(6);
    let alphabet = ['0', '1', '5', '6', '9', '+', '-', ' ', 'a'];
    for _ in 0..4000 {
        let text = source.text(&alphabet, 6);
        assert_eq!(read_u16(&chars_of(&text)), text.parse::<u16>().ok(), "{:?}", text);
        assert_eq!(read_u32(&chars_of(&text)), text.parse::<u32>().ok(), "{:?}", text);
    }
    let digits = ['0', '1', '2', '3', '4', '5', '6', '7', '8', '9'];
    for _ in 0..4000 {
        let text = source.text(&digits, 12);
        assert_eq!(read_u16(&chars_of(&text)), text.parse::<u16>().ok(), "{:?}", text);
        assert_eq!(read_u32(&chars_of(&text)), text.parse::<u32>().ok(), "{:?}", text);
    }
}

#[test]
fn every_port_number_is_read() {
    for port in 0..=u16::MAX {
        assert_eq!(read_u16(&chars_of(&port.to_string())), Some(port));
    }
    for n in [65536u32, 65537, 70000, 99999, 100000, 655350] {
        assert_eq!(read_u16(&chars_of(&n.to_string())), None);
    }
}

#[test]
fn random_searches_agree_with_str() {
    let mut source = Source(7);
    let alphabet = ['a', 'b', ':'];
    for _ in 0..4000 {
        let text = source.text(&alphabet, 10);
        let pat = source.text(&alphabet, 3);
        let t = chars_of(&text);
        let p = chars_of(&pat);
        assert_eq!(find_in(&t, &p, 0), text.find(pat.as_str()), "{:?} {:?}", text, pat);
        assert_eq!(has_pattern(&t, &p), text.contains(pat.as_str()), "{:?} {:?}", text, pat);
        assert_eq!(has_prefix(&t, &p), text.starts_with(pat.as_str()), "{:?} {:?}", text, pat);
        let from = (source.next() % 12) as usize;
        let expected = if from <= text.len() {
            text[from..].find(pat.as_str()).map(|i| i + from)
        } else {
            None
        };
        assert_eq!(find_in(&t, &p, from), expected, "{:?} {:?} {}", text, pat, from);
        assert_eq!(
            opt_string(take_after_last(&t, ':')),
            text.rsplit_once(':').map(|(_, after)| after.to_string()),
            "{:?}",
            text
        );
        if !pat.is_empty() {
            assert_eq!(
                opt_string(take_after_first(&t, &p)),
                text.split_once(pat.as_str()).map(|(_, after)| after.to_string()),
                "{:?} {:?}",
                text,
                pat
            );
        }
    }
}

#[test]
fn random_between_agrees_with_two_searches() {
    let mut source = Source(8);
    let alphabet = ['"', 'a', ',', '='];
    for _ in 0..4000 {
        let text = source.text(&alphabet, 10);
        let expected = text
            .split_once('"')
            .and_then(|(_, rest)| rest.split_once('"'))
            .map(|(inside, _)| inside.to_string());
        let quote = vec!['"'];
        assert_eq!(opt_string(take_between(&chars_of(&text), &quote, &quote)), expected, "{:?}", text);
        let expected = text
            .split_once("a=")
            .and_then(|(_, rest)| rest.split_once(','))
            .map(|(inside, _)| inside.to_string());
        assert_eq!(
            opt_string(take_between(&chars_of(&text), &chars_of("a="), &chars_of(","))),
            expected,
            "{:?}",
            text
        );
    }
}
