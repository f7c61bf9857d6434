use auto_mode::text::{decimal_text, parse_u32, same_text, truncate};

#[test]
fn truncate_counts_characters() {
    assert_eq!(truncate("abc", 3), "abc");
    assert_eq!(truncate("abcd", 3), "abc…");
    assert_eq!(truncate("äöüß", 2), "äö…");
    assert_eq!(truncate("", 0), "");
    assert_eq!(truncate("x", 0), "…");
}

#[test]
fn numbers_are_written_and_read_back() {
    for n in [0, 7, 10, 42, 100, 65536, 4294967295] {
        assert_eq!(decimal_text(n), n.to_string());
        assert_eq!(parse_u32(&decimal_text(n)), Some(n));
    }
}

#[test]
fn number_reader_agrees_with_the_standard_one() {
    for raw in
        ["", "0", "+0", "-0", "00", "12a", "a", "+", "++1", "4294967295", "4294967296", "1_0", "٣"]
    {
        assert_eq!(parse_u32(raw), raw.parse::<u32>().ok(), "{raw:?}");
    }
}

#[test]
fn texts_are_compared_whole() {
    assert!(same_text("auto", "auto"));
    assert!(!same_text("auto", "Auto"));
    assert!(!same_text("auto", "auto "));
}
