use lelang_scraper::model::Province;
use lelang_scraper::report::{province_listing, province_scope_label, DetailOutcome, DetailTally};

#[test]
fn province_listing_lines() {
    let ps = vec![
        Province {
            id: "11111111-1111-1111-1111-111111111111".to_string(),
            nama: "DKI JAKARTA".to_string(),
            full_code: None,
            code: Some("31".to_string()),
        },
        Province { id: "x".to_string(), nama: "BALI".to_string(), full_code: None, code: None },
    ];
    let lines = province_listing(&ps);
    assert_eq!(lines.len(), 6);
    assert_eq!(lines[0], format!("\n{:<40} {:<6} {}", "UUID", "CODE", "NAME"));
    assert_eq!(lines[1], "-".repeat(80));
    assert_eq!(lines[2], format!("{:<40} {:<6} {}", ps[0].id, "31", "DKI JAKARTA"));
    assert_eq!(lines[3], format!("{:<40} {:<6} {}", "x", "", "BALI"));
    assert_eq!(lines[4], "\nTotal: 2 provinces");
    assert_eq!(lines[5], "\nUsage: --provinces \"DKI JAKARTA,JAWA BARAT\"");
}

#[test]
fn scope_label() {
    assert_eq!(province_scope_label(0), "all");
    assert_eq!(province_scope_label(3), "3 selected");
}

#[test]
fn tally_counts_every_lot() {
    let mut t = DetailTally::new();
    for o in [
        DetailOutcome::Saved { geocoded: true },
        DetailOutcome::FetchFailed,
        DetailOutcome::StoreFailed { geocoded: true },
        DetailOutcome::Saved { geocoded: false },
    ] {
        t.record(o);
    }
    assert_eq!(t, DetailTally { saved: 2, failed: 2, geocoded: 2 });
    assert_eq!(t.saved + t.failed, 4);
    assert_eq!(t.summary(), "\u{2705} Details: 2 saved, 2 failed (Geocoded this run: 2)\n");
}
