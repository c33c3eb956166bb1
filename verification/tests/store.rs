use lelang_scraper::model::{CatalogItem, LotContent, LotDetail, Organizer, Seller};
use lelang_scraper::store::{
    catalog_row, catalog_rows, copy_to_parquet, export_paths, exports_details, lot_detail_row,
    shows_status_breakdown, stats_lines, CatalogRow,
};

fn item(id: &str, limit: &str, version: Option<u32>) -> CatalogItem {
    CatalogItem {
        id: id.to_string(),
        lot_lelang_id: format!("lot-{id}"),
        nama_lot_lelang: "Sebidang tanah".to_string(),
        nilai_limit: limit.to_string(),
        uang_jaminan: "50000000".to_string(),
        tanggal_batas_jaminan: Some("2026-07-01".to_string()),
        nama_lokasi: None,
        unit_kerja_id: None,
        nama_unit_kerja: Some("KPKNL Jakarta".to_string()),
        tgl_mulai_lelang: None,
        tgl_selesai_lelang: None,
        status: Some("Aktif".to_string()),
        cara_penawaran: None,
        version,
    }
}

#[test]
fn catalog_row_fills_defaults() {
    let row = catalog_row(&item("1", "644360000", Some(3)));
    assert_eq!(
        row,
        CatalogRow {
            id: "1".to_string(),
            lot_lelang_id: "lot-1".to_string(),
            nama_lot_lelang: "Sebidang tanah".to_string(),
            nilai_limit: 644360000,
            uang_jaminan: 50000000,
            tanggal_batas_jaminan: "2026-07-01".to_string(),
            nama_lokasi: String::new(),
            unit_kerja_id: String::new(),
            nama_unit_kerja: "KPKNL Jakarta".to_string(),
            tgl_mulai_lelang: String::new(),
            tgl_selesai_lelang: String::new(),
            status: "Aktif".to_string(),
            cara_penawaran: String::new(),
            version: 3,
        }
    );
}

#[test]
fn catalog_row_money_and_version_edges() {
    let row = catalog_row(&item("2", "not a number", None));
    assert_eq!(row.nilai_limit, 0);
    assert_eq!(row.version, 0);
    let row = catalog_row(&item("3", "1", Some(u32::MAX)));
    assert_eq!(row.version, -1);
}

#[test]
fn one_row_per_item() {
    let items = vec![item("1", "1", None), item("2", "2", None), item("3", "x", None)];
    let rows = catalog_rows(&items);
    assert_eq!(rows.len(), 3);
    assert_eq!(rows[2].id, "3");
    assert_eq!(rows[1].nilai_limit, 2);
    assert!(catalog_rows(&[]).is_empty());
}

fn detail(content: Option<LotContent>) -> LotDetail {
    LotDetail {
        id: "d1".to_string(),
        permohonan_id: None,
        lot_lelang_id: "lot-1".to_string(),
        nama_lot_lelang: "Rumah".to_string(),
        nilai_limit: "1".to_string(),
        uang_jaminan: "1".to_string(),
        kode_lot: Some("K-9".to_string()),
        tanggal_batas_jaminan: None,
        nama_lokasi: None,
        unit_kerja_id: None,
        nama_unit_kerja: None,
        tgl_mulai_lelang: None,
        tgl_selesai_lelang: None,
        status: None,
        cara_penawaran: None,
        version: None,
        content,
        views: Some(12),
    }
}

#[test]
fn detail_row_without_content() {
    let row = lot_detail_row(&detail(None), Some("ignored".to_string()));
    assert_eq!(row.id, "d1");
    assert_eq!(row.kode_lot, "K-9");
    assert_eq!(row.views, 12);
    assert_eq!(row.seller_nama, "");
    assert_eq!(row.organizer_bank, "");
    assert_eq!(row.barangs_json, "[]");
}

#[test]
fn detail_row_with_seller_and_organizer() {
    let content = LotContent {
        barangs: None,
        seller: Some(Seller {
            nama_penjual: Some("PT Bank".to_string()),
            nama_organisasi_penjual: None,
            nomor_telepon: Some("021".to_string()),
            alamat: None,
            nama_kota: Some("Jakarta".to_string()),
            nama_provinsi: Some("DKI JAKARTA".to_string()),
        }),
        organizer: Some(Organizer {
            nama_unit_kerja: Some("KPKNL".to_string()),
            nama_bank: None,
            nomor_telepon: None,
            alamat: Some("Jl. A".to_string()),
        }),
        attachments: None,
    };
    let row = lot_detail_row(&detail(Some(content)), Some("null".to_string()));
    assert_eq!(row.seller_nama, "PT Bank");
    assert_eq!(row.seller_organisasi, "");
    assert_eq!(row.seller_telepon, "021");
    assert_eq!(row.seller_kota, "Jakarta");
    assert_eq!(row.seller_provinsi, "DKI JAKARTA");
    assert_eq!(row.organizer_unit_kerja, "KPKNL");
    assert_eq!(row.organizer_alamat, "Jl. A");
    assert_eq!(row.barangs_json, "null");
    let content = LotContent { barangs: None, seller: None, organizer: None, attachments: None };
    let row = lot_detail_row(&detail(Some(content)), None);
    assert_eq!(row.barangs_json, "[]");
}

#[test]
fn export_statements() {
    let paths = export_paths("data");
    assert_eq!(paths.catalog, "data/catalog_lots.parquet");
    assert_eq!(paths.details, "data/lot_details.parquet");
    assert_eq!(
        copy_to_parquet("catalog_lots", &paths.catalog),
        "COPY catalog_lots TO 'data/catalog_lots.parquet' (FORMAT PARQUET)"
    );
    assert!(exports_details(1));
    assert!(!exports_details(0));
}

#[test]
fn summary_of_the_store() {
    let statuses = vec![("Aktif".to_string(), 7i64), ("Selesai".to_string(), 2)];
    assert_eq!(
        stats_lines(9, 4, &statuses),
        vec![
            "  catalog_lots:  9 rows".to_string(),
            "  lot_details:   4 rows".to_string(),
            "  Status breakdown:".to_string(),
            "    Aktif: 7".to_string(),
            "    Selesai: 2".to_string(),
        ]
    );
    assert!(shows_status_breakdown(9));
    assert!(!shows_status_breakdown(0));
    assert_eq!(
        stats_lines(0, 0, &statuses),
        vec!["  catalog_lots:  0 rows".to_string(), "  lot_details:   0 rows".to_string()]
    );
}
