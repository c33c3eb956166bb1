use lelang_scraper::geocode::{
    geocode_address, geocode_found, geocode_url, geocoding_target, within_quota,
    MONTHLY_GEOCODE_QUOTA,
};
use lelang_scraper::model::{Barang, LotContent, LotDetail};

fn barang(alamat: Option<&str>) -> Barang {
    Barang {
        id: "b1".to_string(),
        nama: None,
        bukti_kepemilikan: None,
        bukti_kepemilikan_no: None,
        alamat: alamat.map(|s| s.to_string()),
        luas: None,
        stnk: None,
        nomor_rangka: None,
        nopol: None,
        tahun: None,
        warna: None,
        jenis_barang: None,
        jenis_objek: None,
    }
}

fn detail(barangs: Option<Vec<Barang>>, lokasi: Option<&str>) -> LotDetail {
    LotDetail {
        id: "d1".to_string(),
        permohonan_id: None,
        lot_lelang_id: "lot-1".to_string(),
        nama_lot_lelang: "Tanah".to_string(),
        nilai_limit: "100".to_string(),
        uang_jaminan: "10".to_string(),
        kode_lot: None,
        tanggal_batas_jaminan: None,
        nama_lokasi: lokasi.map(|s| s.to_string()),
        unit_kerja_id: None,
        nama_unit_kerja: None,
        tgl_mulai_lelang: None,
        tgl_selesai_lelang: None,
        status: None,
        cara_penawaran: None,
        version: None,
        content: barangs.map(|b| LotContent {
            barangs: Some(b),
            seller: None,
            organizer: None,
            attachments: None,
        }),
        views: None,
    }
}

#[test]
fn address_comes_from_the_first_item_then_the_location() {
    let d = detail(Some(vec![barang(Some("Jl. Merdeka 1")), barang(Some("x"))]), Some("Bandung"));
    assert_eq!(geocode_address(&d), Some("Jl. Merdeka 1".to_string()));
    let d = detail(Some(vec![barang(None)]), Some("Bandung"));
    assert_eq!(geocode_address(&d), Some("Bandung".to_string()));
    let d = detail(Some(vec![]), None);
    assert_eq!(geocode_address(&d), None);
    let d = detail(None, Some("Bogor"));
    assert_eq!(geocode_address(&d), Some("Bogor".to_string()));
}

#[test]
fn blank_addresses_and_missing_keys_are_not_geocoded() {
    let d = detail(Some(vec![barang(Some("  "))]), Some("Bandung"));
    assert_eq!(geocoding_target(true, &d), None);
    let d = detail(Some(vec![barang(Some("Jl. A"))]), None);
    assert_eq!(geocoding_target(false, &d), None);
    assert_eq!(geocoding_target(true, &d), Some("Jl. A".to_string()));
}

#[test]
fn quota_is_a_thousand_a_month() {
    assert_eq!(MONTHLY_GEOCODE_QUOTA, 1000);
    assert!(within_quota(0));
    assert!(within_quota(999));
    assert!(!within_quota(1000));
}

#[test]
fn geocode_request_encodes_the_address() {
    assert_eq!(
        geocode_url("KEY", "Jl. Sudirman No.1, Jakarta ü"),
        "https://maps.googleapis.com/maps/api/geocode/json?address=Jl.%20Sudirman%20No.1%2C%20Jakarta%20%C3%BC&key=KEY"
    );
    assert_eq!(
        geocode_url("k", "a-b_c.d~e"),
        "https://maps.googleapis.com/maps/api/geocode/json?address=a-b_c.d~e&key=k"
    );
}

#[test]
fn only_ok_answers_with_results_count() {
    assert!(geocode_found("OK", 1));
    assert!(!geocode_found("OK", 0));
    assert!(!geocode_found("ZERO_RESULTS", 0));
    assert!(!geocode_found("OVER_QUERY_LIMIT", 3));
}
