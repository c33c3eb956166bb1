use lelang_scraper::money::parse_money;
use lelang_scraper::text::signed_decimal_text;

#[test]
fn parse_money_reads_plain_amounts() {
    assert_eq!(parse_money("644360000"), 644360000);
    assert_eq!(parse_money("0"), 0);
    assert_eq!(parse_money("007"), 7);
}

#[test]
fn parse_money_accepts_signs() {
    assert_eq!(parse_money("-125"), -125);
    assert_eq!(parse_money("+125"), 125);
}

#[test]
fn parse_money_gives_zero_on_failure() {
    assert_eq!(parse_money(""), 0);
    assert_eq!(parse_money("-"), 0);
    assert_eq!(parse_money("+"), 0);
    assert_eq!(parse_money("12a"), 0);
    assert_eq!(parse_money(" 12"), 0);
    assert_eq!(parse_money("1.5"), 0);
    assert_eq!(parse_money("Rp 100"), 0);
}

#[test]
fn parse_money_range_edges() {
    assert_eq!(parse_money("9223372036854775807"), i64::MAX);
    assert_eq!(parse_money("-9223372036854775808"), i64::MIN);
    assert_eq!(parse_money("9223372036854775808"), 0);
    assert_eq!(parse_money("-9223372036854775809"), 0);
    assert_eq!(parse_money("99999999999999999999999"), 0);
}

#[test]
fn parse_money_agrees_with_std() {
    for s in ["1", "-0", "+0", "12345678901234567890", "--1", "+-1", "١٢", "42 "] {
        assert_eq!(parse_money(s), s.parse::<i64>().unwrap_or(0), "{s}");
    }
}

#[test]
fn money_text_round_trip() {
    for v in [0i64, 1, -1, 644360000, i64::MAX, i64::MIN, -9876543210] {
        let text = signed_decimal_text(v);
        assert_eq!(text, v.to_string());
        assert_eq!(parse_money(&text), v);
    }
}
