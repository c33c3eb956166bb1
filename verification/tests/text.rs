use lelang_scraper::text::{
    chars_of, contains_chars, has_char, has_nonblank, owned, pad_right, same_text,
    signed_decimal_text,
};

#[test]
fn chars_and_strings_round_trip() {
    let cs = chars_of("Jawa Barat ü");
    assert_eq!(cs.len(), 12);
    assert_eq!(cs.iter().collect::<String>(), "Jawa Barat ü");
    assert_eq!(owned("abc"), "abc".to_string());
}

#[test]
fn substring_search() {
    let hay = chars_of("DKI JAKARTA");
    assert!(contains_chars(&hay, &chars_of("JAKARTA")));
    assert!(contains_chars(&hay, &chars_of("")));
    assert!(contains_chars(&hay, &chars_of("DKI JAKARTA")));
    assert!(!contains_chars(&hay, &chars_of("DKI JAKARTA RAYA")));
    assert!(!contains_chars(&hay, &chars_of("jakarta")));
}

#[test]
fn char_search_and_blankness() {
    assert!(has_char("a-b", '-'));
    assert!(!has_char("ab", '-'));
    assert!(has_nonblank("  x "));
    assert!(!has_nonblank(" \t\n\u{3000} "));
    assert!(same_text("OK", "OK"));
    assert!(!same_text("OK", "ok"));
}

#[test]
fn decimal_and_padding_match_std_formatting() {
    for n in [0i64, 7, 10, -99, 1000, i64::MAX] {
        assert_eq!(signed_decimal_text(n), n.to_string());
    }
    assert_eq!(pad_right("ab", 5), format!("{:<5}", "ab"));
    assert_eq!(pad_right("abcdef", 3), "abcdef");
    assert_eq!(pad_right("üé", 4), format!("{:<4}", "üé"));
}
