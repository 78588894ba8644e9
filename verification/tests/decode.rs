use konnyaku::text::{concat_str, str_eq, trim_chars};
use konnyaku::utf8dec::Utf8Decoder;

fn feed_all(dec: &mut Utf8Decoder, bytes: &[u8]) -> String {
    dec.feed(bytes).into_iter().collect()
}

#[test]
fn ascii_decodes_byte_by_byte() {
    let mut dec = Utf8Decoder::new();
    assert_eq!(feed_all(&mut dec, b"Hi"), "Hi");
    assert_eq!(feed_all(&mut dec, b"!"), "!");
}

#[test]
fn three_byte_char_split_across_feeds() {
    // "Ko" of Japanese Hiragana: E3 81 93
    let mut dec = Utf8Decoder::new();
    assert_eq!(feed_all(&mut dec, &[0xE3]), "");
    assert_eq!(feed_all(&mut dec, &[0x81]), "");
    assert_eq!(feed_all(&mut dec, &[0x93]), "\u{3053}");
}

#[test]
fn japanese_word_split_at_every_point() {
    let text = "\u{3053}\u{3093}\u{306B}\u{3061}\u{306F}";
    let bytes = text.as_bytes();
    for cut in 0..=bytes.len() {
        let mut dec = Utf8Decoder::new();
        let mut out = feed_all(&mut dec, &bytes[..cut]);
        out.push_str(&feed_all(&mut dec, &bytes[cut..]));
        assert_eq!(out, text);
    }
}

#[test]
fn four_byte_char_split_across_feeds() {
    let text = "\u{1F600}";
    let bytes = text.as_bytes();
    assert_eq!(bytes.len(), 4);
    let mut dec = Utf8Decoder::new();
    assert_eq!(feed_all(&mut dec, &bytes[..2]), "");
    assert_eq!(feed_all(&mut dec, &bytes[2..]), text);
}

#[test]
fn two_byte_char_decodes() {
    let mut dec = Utf8Decoder::new();
    assert_eq!(feed_all(&mut dec, "\u{00E9}".as_bytes()), "\u{00E9}");
}

#[test]
fn stray_continuation_byte_is_replaced() {
    let mut dec = Utf8Decoder::new();
    assert_eq!(feed_all(&mut dec, &[0x80]), "\u{FFFD}");
}

#[test]
fn invalid_lead_byte_is_replaced() {
    let mut dec = Utf8Decoder::new();
    assert_eq!(feed_all(&mut dec, &[0xFF]), "\u{FFFD}");
}

#[test]
fn broken_sequence_then_ascii() {
    // a three-byte lead followed by an ASCII byte: the broken sequence
    // becomes a replacement character, the ASCII byte stands on its own
    let mut dec = Utf8Decoder::new();
    assert_eq!(feed_all(&mut dec, &[0xE3, 0x41]), "\u{FFFD}A");
}

#[test]
fn overlong_encoding_is_replaced() {
    let mut dec = Utf8Decoder::new();
    assert_eq!(feed_all(&mut dec, &[0xC0, 0x80]), "\u{FFFD}");
}

#[test]
fn surrogate_encoding_is_replaced() {
    let mut dec = Utf8Decoder::new();
    assert_eq!(feed_all(&mut dec, &[0xED, 0xA0, 0x80]), "\u{FFFD}");
}

#[test]
fn mixed_ascii_and_japanese_stream() {
    let text = "abc\u{3053}def\u{3093}g";
    let bytes = text.as_bytes();
    let mut dec = Utf8Decoder::new();
    let mut out = String::new();
    for b in bytes {
        out.push_str(&feed_all(&mut dec, &[*b]));
    }
    assert_eq!(out, text);
}

#[test]
fn str_eq_decides_equality() {
    assert!(str_eq("en-ja", "en-ja"));
    assert!(!str_eq("en-ja", "ja-en"));
    assert!(!str_eq("en-ja", "en-j"));
    assert!(str_eq("", ""));
    assert!(str_eq("\u{3053}\u{3093}", "\u{3053}\u{3093}"));
    assert!(!str_eq("\u{3053}", "\u{3093}"));
}

#[test]
fn concat_str_joins() {
    assert_eq!(concat_str("foo", "bar"), "foobar");
    assert_eq!(concat_str("", "x"), "x");
}

#[test]
fn trim_removes_surrounding_whitespace() {
    let v: Vec<char> = " \t\n hello world \u{3000}\r".chars().collect();
    let trimmed: String = trim_chars(&v).into_iter().collect();
    assert_eq!(trimmed, "hello world");
}

#[test]
fn trim_of_all_whitespace_is_empty() {
    let v: Vec<char> = " \n\t".chars().collect();
    assert_eq!(trim_chars(&v).len(), 0);
}

#[test]
fn trim_keeps_inner_whitespace() {
    let v: Vec<char> = "a b".chars().collect();
    let trimmed: String = trim_chars(&v).into_iter().collect();
    assert_eq!(trimmed, "a b");
}
