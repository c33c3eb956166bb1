use lelang_scraper::calendar::month_key;

#[test]
fn month_keys_of_moments() {
    assert_eq!(month_key(0), "1970-01");
    assert_eq!(month_key(2678399), "1970-01");
    assert_eq!(month_key(2678400), "1970-02");
    assert_eq!(month_key(946684799), "1999-12");
    assert_eq!(month_key(951825600), "2000-02");
    assert_eq!(month_key(1709164800), "2024-02");
    assert_eq!(month_key(1709251200), "2024-03");
    assert_eq!(month_key(1783900800), "2026-07");
    assert_eq!(month_key(4107542400), "2100-03");
}
