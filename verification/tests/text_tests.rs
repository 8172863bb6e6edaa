use bungie_pgcr_analyzer::text::{
    append_decimal, append_padded, append_signed_decimal, char_count_up_to, labeled, labeled_number,
    lookup_by_name, parse_u64, text_eq,
};

#[test]
fn decimal_writing_of_numbers() {
    let mut s = String::new();
    append_decimal(&mut s, 0);
    assert_eq!(s, "0");
    let mut s = String::from("x");
    append_decimal(&mut s, 1234567890);
    assert_eq!(s, "x1234567890");
    let mut s = String::new();
    append_decimal(&mut s, u64::MAX);
    assert_eq!(s, "18446744073709551615");
}

#[test]
fn signed_decimal_writing() {
    let mut s = String::new();
    append_signed_decimal(&mut s, -42);
    assert_eq!(s, "-42");
    let mut s = String::new();
    append_signed_decimal(&mut s, i64::MIN);
    assert_eq!(s, "-9223372036854775808");
    assert_eq!(labeled_number("n=", 7), "n=7");
    assert_eq!(labeled("a", "b"), "ab");
}

#[test]
fn parse_u64_accepts_digits_and_plus() {
    assert_eq!(parse_u64("42"), Some(42));
    assert_eq!(parse_u64("+7"), Some(7));
    assert_eq!(parse_u64("007"), Some(7));
    assert_eq!(parse_u64("18446744073709551615"), Some(u64::MAX));
}

#[test]
fn parse_u64_refuses_what_str_parse_refuses() {
    for text in ["", "+", "-1", "1a", " 1", "18446744073709551616", "٣"] {
        assert_eq!(parse_u64(text), text.parse::<u64>().ok(), "{text}");
        assert_eq!(parse_u64(text), None);
    }
}

#[test]
fn parse_u64_agrees_with_str_parse() {
    for text in ["0", "+0", "99999999999999999999", "12345", "+18446744073709551615"] {
        assert_eq!(parse_u64(text), text.parse::<u64>().ok(), "{text}");
    }
}

#[test]
fn padding_counts_characters() {
    let mut s = String::new();
    append_padded(&mut s, "ab", 5);
    assert_eq!(s, "ab   ");
    assert_eq!(s, format!("{:<5}", "ab"));
    let mut s = String::new();
    append_padded(&mut s, "héllo wörld", 5);
    assert_eq!(s, "héllo wörld");
    let mut s = String::new();
    append_padded(&mut s, "é", 3);
    assert_eq!(s, format!("{:<3}", "é"));
    assert_eq!(char_count_up_to("héllo", 10), 5);
    assert_eq!(char_count_up_to("héllo", 3), 3);
}

#[test]
fn text_equality_and_lookup() {
    assert!(text_eq("kills", "kills"));
    assert!(!text_eq("kills", "Kills"));
    let entries = vec![("a".to_string(), 1), ("b".to_string(), 2), ("a".to_string(), 3)];
    assert_eq!(lookup_by_name(&entries, "a"), Some(&1));
    assert_eq!(lookup_by_name(&entries, "b"), Some(&2));
    assert_eq!(lookup_by_name(&entries, "c"), None);
}
