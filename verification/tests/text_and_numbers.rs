use tcp_gateway::number::{parse_u64, push_decimal};
use tcp_gateway::text::{
    chars_of, contains_text, decode_lossy, split_lines, split_words, string_from_chars, white_space,
};

fn chars(s: &str) -> Vec<char> {
    s.chars().collect()
}

fn strings(v: Vec<Vec<char>>) -> Vec<String> {
    v.into_iter().map(|l| l.into_iter().collect()).collect()
}

#[test]
fn lines_split_on_line_feeds_and_drop_carriage_returns() {
    let ls = strings(split_lines(&chars("foo\r\nbar\n\nbaz\r")));
    assert_eq!(ls, vec!["foo", "bar", "", "baz\r"]);
}

#[test]
fn lines_match_std() {
    for text in ["", "\n", "a", "a\n", "a\n\n", "\r\n", "x\r\ny\r\n", "a\rb\nc", "\n\nq"] {
        let expected: Vec<String> = text.lines().map(|l| l.to_string()).collect();
        assert_eq!(strings(split_lines(&chars(text))), expected, "text {:?}", text);
    }
}

#[test]
fn words_match_std() {
    for text in ["", "  ", "HTTP/1.1 200 OK", "  a\tb\u{3000}c  ", "one", "a\u{a0}b\u{85}c"] {
        let expected: Vec<String> = text.split_whitespace().map(|w| w.to_string()).collect();
        assert_eq!(strings(split_words(&chars(text))), expected, "text {:?}", text);
    }
}

#[test]
fn white_space_matches_std() {
    for u in 0u32..0x3100 {
        if let Some(c) = char::from_u32(u) {
            assert_eq!(white_space(c), c.is_whitespace(), "char {:x}", u);
        }
    }
}

#[test]
fn contains_finds_pieces() {
    assert!(contains_text(&chars("http://primary:80"), &chars("primary")));
    assert!(!contains_text(&chars("http://canary:80"), &chars("primary")));
    assert!(contains_text(&chars("abc"), &chars("")));
    assert!(!contains_text(&chars("pri"), &chars("primary")));
    assert!(contains_text(&chars("primary"), &chars("primary")));
}

#[test]
fn chars_and_strings_round_trip() {
    let c = chars_of("héllo");
    assert_eq!(c, vec!['h', 'é', 'l', 'l', 'o']);
    assert_eq!(string_from_chars(&c), "héllo");
}

#[test]
fn lossy_decoding_replaces_invalid_bytes() {
    assert_eq!(decode_lossy(b"ok"), "ok");
    assert_eq!(decode_lossy(&[b'a', 0xff, b'b']), "a\u{FFFD}b");
}

#[test]
fn parse_reads_decimal_numbers_as_std_does() {
    for text in ["0", "10", "+7", "18446744073709551615", "18446744073709551616", "", "+", "-1", " 5", "5 ", "1_000", "007"] {
        assert_eq!(parse_u64(&chars(text)), text.parse::<u64>().ok(), "text {:?}", text);
    }
}

#[test]
fn decimal_notation_round_trips() {
    for n in [0u64, 7, 10, 99, 4096, u64::MAX] {
        let mut out = Vec::new();
        push_decimal(n, &mut out);
        let s: String = out.iter().collect();
        assert_eq!(s, n.to_string());
        assert_eq!(parse_u64(&out), Some(n));
    }
}
