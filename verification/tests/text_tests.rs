use vibevoicecli::text::{eq_ignore_ascii_case, str_contains, str_equal, trim};

#[test]
fn trim_removes_surrounding_whitespace() {
    assert_eq!(trim("  hello world \t\n"), "hello world");
    assert_eq!(trim("hello"), "hello");
    assert_eq!(trim(""), "");
    assert_eq!(trim(" \t \r\n "), "");
}

#[test]
fn trim_removes_unicode_whitespace() {
    assert_eq!(trim("\u{3000}\u{a0}text\u{2028}\u{85}"), "text");
    assert_eq!(trim("\u{200b}text"), "\u{200b}text");
}

#[test]
fn trim_matches_std_trim() {
    let samples = [
        " a b ",
        "\u{1680}x\u{205f}",
        "\u{feff}y",
        "\u{2000}\u{200a}z\u{202f}",
        "no-space",
        "  \u{0b}\u{0c}mid dle\u{0d}",
    ];
    for s in samples.iter() {
        assert_eq!(trim(s), s.trim());
    }
}

#[test]
fn trim_is_idempotent_on_examples() {
    for s in [" x ", "\t\ty", "z", "   "].iter() {
        let once = trim(s);
        assert_eq!(trim(&once), once);
    }
}

#[test]
fn contains_finds_fragments() {
    assert!(str_contains("en_0.5b_realtime", "0.5b"));
    assert!(str_contains("en_0.5b_realtime", "realtime"));
    assert!(str_contains("abc", ""));
    assert!(str_contains("", ""));
    assert!(!str_contains("", "a"));
    assert!(!str_contains("ab", "abc"));
    assert!(!str_contains("en_1.5b_speaker_0", "speaker_1"));
    assert!(str_contains("ääspeaker_1ü", "speaker_1"));
}

#[test]
fn equality_and_case_folding() {
    assert!(str_equal("windows", "windows"));
    assert!(!str_equal("windows", "Windows"));
    assert!(eq_ignore_ascii_case("EXIT", "exit"));
    assert!(eq_ignore_ascii_case("QuIt", "quit"));
    assert!(!eq_ignore_ascii_case("exits", "exit"));
    assert!(!eq_ignore_ascii_case("ÉXIT", "éxit"));
    assert!(eq_ignore_ascii_case("é", "é"));
}
