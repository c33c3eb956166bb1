use lelang_scraper::catalog::{
    catalog_page_url, catalog_scopes, lot_detail_url, next_catalog_page, provinces_url,
};

fn strings(xs: &[&str]) -> Vec<String> {
    xs.iter().map(|s| s.to_string()).collect()
}

#[test]
fn addresses_of_the_api() {
    assert_eq!(
        provinces_url(),
        "https://api-auth.lelang.go.id/api/v1/master/ref-provinsi?limit=9999"
    );
    assert_eq!(
        lot_detail_url("abc-123"),
        "https://api.lelang.go.id/api/v1/landing-page/info/abc-123"
    );
}

#[test]
fn catalog_page_address() {
    assert_eq!(
        catalog_page_url(3, 50, &strings(&["Ruko", "Rumah", "Tanah"]), Some("p-1")),
        "https://api.lelang.go.id/api/v1/landing-page/katalog-lot-lelang?limit=50&dcp=true&page=3\
         &namakategori%5B%5D=Ruko&namakategori%5B%5D=Rumah&namakategori%5B%5D=Tanah&province=p-1"
    );
    assert_eq!(
        catalog_page_url(1, 10, &[], None),
        "https://api.lelang.go.id/api/v1/landing-page/katalog-lot-lelang?limit=10&dcp=true&page=1"
    );
}

#[test]
fn scopes_of_a_walk() {
    assert_eq!(catalog_scopes(&[]), vec![None]);
    assert_eq!(
        catalog_scopes(&strings(&["a", "b"])),
        vec![Some("a".to_string()), Some("b".to_string())]
    );
}

#[test]
fn walk_stops_at_the_last_page() {
    assert_eq!(next_catalog_page(1, Some(3), 50, 0), Some(2));
    assert_eq!(next_catalog_page(3, Some(3), 50, 0), None);
    assert_eq!(next_catalog_page(1, None, 50, 0), None);
    assert_eq!(next_catalog_page(1, Some(0), 50, 0), None);
}

#[test]
fn walk_stops_at_an_empty_page_or_the_page_limit() {
    assert_eq!(next_catalog_page(2, Some(10), 0, 0), None);
    assert_eq!(next_catalog_page(2, Some(10), 5, 2), None);
    assert_eq!(next_catalog_page(1, Some(10), 5, 2), Some(2));
}

#[test]
fn full_walk_visits_each_page_once() {
    let mut visited = vec![1u32];
    let mut page = 1;
    while let Some(next) = next_catalog_page(page, Some(7), 50, 0) {
        visited.push(next);
        page = next;
    }
    assert_eq!(visited, (1..=7).collect::<Vec<_>>());
    let mut count = 1;
    page = 1;
    while let Some(next) = next_catalog_page(page, Some(7), 50, 4) {
        count += 1;
        page = next;
    }
    assert_eq!(count, 4);
}
