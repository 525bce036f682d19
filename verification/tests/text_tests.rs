use voicewedge::clock::{utc_time, LocalTime};
use voicewedge::recording::timestamp_name;
use voicewedge::template::render_template;
use voicewedge::text::{chars_of, decimal_len, push_decimal, push_padded, same_text, trim_whitespace, white_space};

#[test]
fn render_biograph_template() {
    assert_eq!(
        render_template("{text}  /bio:voice {filename}", "Привет, мир", "rec-17.wav"),
        "Привет, мир  /bio:voice rec-17.wav"
    );
}

#[test]
fn render_plain_template() {
    assert_eq!(render_template("{text}", "hello", "rec-1.wav"), "hello");
    assert_eq!(render_template("{text}", "", "rec-1.wav"), "");
}

#[test]
fn render_template_without_placeholders() {
    assert_eq!(render_template("no tags {here}", "a", "b"), "no tags {here}");
    assert_eq!(render_template("", "a", "b"), "");
}

#[test]
fn render_does_not_rescan_substitutions() {
    assert_eq!(render_template("{text}|{filename}", "{filename}", "{text}"), "{filename}|{text}");
}

#[test]
fn render_repeated_and_partial_tags() {
    assert_eq!(render_template("{text}{text}", "ab", "f"), "abab");
    assert_eq!(render_template("{tex}{{text}}", "X", "f"), "{tex}{X}");
    assert_eq!(render_template("{filename", "X", "f"), "{filename");
}

#[test]
fn trims_unicode_whitespace() {
    assert_eq!(trim_whitespace("  hello world \n"), "hello world");
    assert_eq!(trim_whitespace("\u{3000}\u{a0}текст\u{2009}"), "текст");
    assert_eq!(trim_whitespace(" \t\r\n "), "");
    assert_eq!(trim_whitespace(""), "");
    assert_eq!(trim_whitespace("a b"), "a b");
    assert_eq!(trim_whitespace("\u{200b}x"), "\u{200b}x");
}

#[test]
fn whitespace_matches_std() {
    for c in ['\t', '\n', '\u{b}', '\u{c}', '\r', ' ', '\u{85}', '\u{a0}', '\u{1680}', '\u{2000}', '\u{200a}', '\u{2028}', '\u{2029}', '\u{202f}', '\u{205f}', '\u{3000}', 'a', '\u{200b}', '\u{180e}', '_'] {
        assert_eq!(white_space(c), c.is_whitespace(), "{:?}", c);
    }
}

#[test]
fn decimal_rendering() {
    let mut s = String::from("n=");
    push_decimal(&mut s, 0);
    assert_eq!(s, "n=0");
    let mut t = String::new();
    push_decimal(&mut t, 1_700_000_000_123);
    assert_eq!(t, "1700000000123");
    let mut u = String::new();
    push_decimal(&mut u, u128::MAX);
    assert_eq!(u, u128::MAX.to_string());
}

fn at(year: u32, month: u32, day: u32, hour: u32, minute: u32, second: u32, millisecond: u32) -> LocalTime {
    LocalTime { year, month, day, hour, minute, second, millisecond }
}

#[test]
fn recording_names() {
    assert_eq!(timestamp_name(&at(2026, 6, 15, 14, 30, 22, 187)), "20260615-143022-187.wav");
    assert_eq!(timestamp_name(&at(2026, 1, 2, 3, 4, 5, 6)), "20260102-030405-006.wav");
    assert_eq!(timestamp_name(&at(999, 12, 31, 23, 59, 59, 999)), "09991231-235959-999.wav");
    assert_ne!(
        timestamp_name(&at(2026, 6, 15, 14, 30, 22, 187)),
        timestamp_name(&at(2026, 6, 15, 14, 30, 22, 188))
    );
    assert_eq!(timestamp_name(&at(12345, 1, 1, 0, 0, 0, 0)), "123450101-000000-000.wav");
    assert_ne!(timestamp_name(&at(12345, 1, 1, 0, 0, 0, 0)), timestamp_name(&at(1234, 5, 1, 1, 0, 0, 0)));
    assert!(timestamp_name(&at(u32::MAX, 12, 31, 23, 59, 59, 999)).ends_with(".wav"));
}

#[test]
fn padding() {
    let mut s = String::new();
    push_padded(&mut s, 7, 3);
    push_padded(&mut s, 1234, 2);
    push_padded(&mut s, 0, 1);
    assert_eq!(s, "00712340");
    assert_eq!(decimal_len(0), 1);
    assert_eq!(decimal_len(9), 1);
    assert_eq!(decimal_len(10), 2);
    assert_eq!(decimal_len(u32::MAX), 10);
}

#[test]
fn utc_calendar() {
    assert_eq!(utc_time(0), at(1970, 1, 1, 0, 0, 0, 0));
    assert_eq!(utc_time(1781533822187), at(2026, 6, 15, 14, 30, 22, 187));
    assert_eq!(utc_time(951868799999), at(2000, 2, 29, 23, 59, 59, 999));
    assert_eq!(utc_time(68256000000), at(1972, 3, 1, 0, 0, 0, 0));
    assert_eq!(utc_time(4102444800000), at(2100, 1, 1, 0, 0, 0, 0));
}

#[test]
fn chars_and_equality() {
    assert_eq!(chars_of("aé"), vec!['a', 'é']);
    assert!(same_text("paste", "paste"));
    assert!(!same_text("paste", "Paste"));
}
