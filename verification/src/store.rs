//! The rows written to the store, the Parquet export, and the summaries
//! printed about them.
use vstd::prelude::*;
use crate::model::{CatalogItem, LotDetail, Organizer, Seller};
use crate::money::{money_value, parse_money};
use crate::text::{owned, signed_decimal, signed_decimal_text};

verus! {

/// The text of an optional field, empty where it is absent.
pub open spec fn text_or_empty(o: Option<String>) -> Seq<char> {
    match o {
        Some(s) => s@,
        None => Seq::empty(),
    }
}

/// The text of an optional field, empty where it is absent.
pub fn or_empty(o: &Option<String>) -> (res: String)
    ensures
        res@ == text_or_empty(*o),
{
    match o {
        Some(s) => s.clone(),
        None => String::new(),
    }
}

/// A row of the `catalog_lots` table.
#[derive(Clone, Debug, PartialEq, Eq)]
pub struct CatalogRow {
    pub id: String,
    pub lot_lelang_id: String,
    pub nama_lot_lelang: String,
    pub nilai_limit: i64,
    pub uang_jaminan: i64,
    pub tanggal_batas_jaminan: String,
    pub nama_lokasi: String,
    pub unit_kerja_id: String,
    pub nama_unit_kerja: String,
    pub tgl_mulai_lelang: String,
    pub tgl_selesai_lelang: String,
    pub status: String,
    pub cara_penawaran: String,
    pub version: i32,
}

/// The row stored for a catalogue item: money as integers (0 where it does
/// not parse), absent texts as empty ones, an absent version as 0 and the
/// version taken as a 32-bit signed integer.
pub open spec fn is_catalog_row_of(row: CatalogRow, item: CatalogItem) -> bool {
    &&& row.id@ == item.id@
    &&& row.lot_lelang_id@ == item.lot_lelang_id@
    &&& row.nama_lot_lelang@ == item.nama_lot_lelang@
    &&& row.nilai_limit == money_value(item.nilai_limit@)
    &&& row.uang_jaminan == money_value(item.uang_jaminan@)
    &&& row.tanggal_batas_jaminan@ == text_or_empty(item.tanggal_batas_jaminan)
    &&& row.nama_lokasi@ == text_or_empty(item.nama_lokasi)
    &&& row.unit_kerja_id@ == text_or_empty(item.unit_kerja_id)
    &&& row.nama_unit_kerja@ == text_or_empty(item.nama_unit_kerja)
    &&& row.tgl_mulai_lelang@ == text_or_empty(item.tgl_mulai_lelang)
    &&& row.tgl_selesai_lelang@ == text_or_empty(item.tgl_selesai_lelang)
    &&& row.status@ == text_or_empty(item.status)
    &&& row.cara_penawaran@ == text_or_empty(item.cara_penawaran)
    &&& row.version == (match item.version {
        Some(v) => v,
        None => 0u32,
    }) as i32
}

/// The row stored for a catalogue item.
pub fn catalog_row(item: &CatalogItem) -> (row: CatalogRow)
    ensures
        is_catalog_row_of(row, *item),
{
    let version: u32 = match item.version {
        Some(v) => v,
        None => 0,
    };
    CatalogRow {
        id: item.id.clone(),
        lot_lelang_id: item.lot_lelang_id.clone(),
        nama_lot_lelang: item.nama_lot_lelang.clone(),
        nilai_limit: parse_money(item.nilai_limit.as_str()),
        uang_jaminan: parse_money(item.uang_jaminan.as_str()),
        tanggal_batas_jaminan: or_empty(&item.tanggal_batas_jaminan),
        nama_lokasi: or_empty(&item.nama_lokasi),
        unit_kerja_id: or_empty(&item.unit_kerja_id),
        nama_unit_kerja: or_empty(&item.nama_unit_kerja),
        tgl_mulai_lelang: or_empty(&item.tgl_mulai_lelang),
        tgl_selesai_lelang: or_empty(&item.tgl_selesai_lelang),
        status: or_empty(&item.status),
        cara_penawaran: or_empty(&item.cara_penawaran),
        version: version as i32,
    }
}

/// The rows stored for catalogue items, one per item in order; the store
/// reports as many rows upserted as there are items.
pub fn catalog_rows(items: &[CatalogItem]) -> (rows: Vec<CatalogRow>)
    ensures
        rows@.len() == items@.len(),
        forall|i: int| 0 <= i < items@.len() ==> is_catalog_row_of(#[trigger] rows@[i], items@[i]),
{
    let mut rows: Vec<CatalogRow> = Vec::new();
    for i in 0..items.len()
        invariant
            rows@.len() == i,
            forall|j: int| 0 <= j < i ==> is_catalog_row_of(#[trigger] rows@[j], items@[j]),
    {
        rows.push(catalog_row(&items[i]));
    }
    rows
}

/// A row of the `lot_details` table, apart from the coordinates.
#[derive(Clone, Debug, PartialEq, Eq)]
pub struct LotDetailRow {
    pub id: String,
    pub lot_lelang_id: String,
    pub kode_lot: String,
    pub views: i32,
    pub seller_nama: String,
    pub seller_organisasi: String,
    pub seller_telepon: String,
    pub seller_alamat: String,
    pub seller_kota: String,
    pub seller_provinsi: String,
    pub organizer_unit_kerja: String,
    pub organizer_bank: String,
    pub organizer_telepon: String,
    pub organizer_alamat: String,
    pub barangs_json: String,
}

/// The seller of a lot, if its detail names one.
pub open spec fn seller_of(d: LotDetail) -> Option<Seller> {
    match d.content {
        Some(c) => c.seller,
        None => None,
    }
}

/// The organiser of a lot, if its detail names one.
pub open spec fn organizer_of(d: LotDetail) -> Option<Organizer> {
    match d.content {
        Some(c) => c.organizer,
        None => None,
    }
}

/// A text field of an optional record, empty where either is absent.
pub open spec fn field_or_empty<R>(r: Option<R>, f: spec_fn(R) -> Option<String>) -> Seq<char> {
    match r {
        Some(x) => text_or_empty(f(x)),
        None => Seq::empty(),
    }
}

/// The JSON stored for the items of a lot: `[]` where the detail has no
/// content, else the serialisation of its item list, `[]` where that failed.
pub open spec fn barangs_json_of(d: LotDetail, serialized: Option<String>) -> Seq<char> {
    match d.content {
        None => "[]"@,
        Some(_) => match serialized {
            Some(s) => s@,
            None => "[]"@,
        },
    }
}

/// The row stored for a lot detail, where `barangs_serialized` is the JSON
/// serialisation of the detail's item list (`None` where it failed).
pub open spec fn is_detail_row_of(
    row: LotDetailRow,
    d: LotDetail,
    barangs_serialized: Option<String>,
) -> bool {
    &&& row.id@ == d.id@
    &&& row.lot_lelang_id@ == d.lot_lelang_id@
    &&& row.kode_lot@ == text_or_empty(d.kode_lot)
    &&& row.views == (match d.views {
        Some(v) => v,
        None => 0u32,
    }) as i32
    &&& row.seller_nama@ == field_or_empty(seller_of(d), |s: Seller| s.nama_penjual)
    &&& row.seller_organisasi@ == field_or_empty(seller_of(d), |s: Seller| s.nama_organisasi_penjual)
    &&& row.seller_telepon@ == field_or_empty(seller_of(d), |s: Seller| s.nomor_telepon)
    &&& row.seller_alamat@ == field_or_empty(seller_of(d), |s: Seller| s.alamat)
    &&& row.seller_kota@ == field_or_empty(seller_of(d), |s: Seller| s.nama_kota)
    &&& row.seller_provinsi@ == field_or_empty(seller_of(d), |s: Seller| s.nama_provinsi)
    &&& row.organizer_unit_kerja@ == field_or_empty(organizer_of(d), |o: Organizer| o.nama_unit_kerja)
    &&& row.organizer_bank@ == field_or_empty(organizer_of(d), |o: Organizer| o.nama_bank)
    &&& row.organizer_telepon@ == field_or_empty(organizer_of(d), |o: Organizer| o.nomor_telepon)
    &&& row.organizer_alamat@ == field_or_empty(organizer_of(d), |o: Organizer| o.alamat)
    &&& row.barangs_json@ == barangs_json_of(d, barangs_serialized)
}

/// The row stored for a lot detail; `barangs_serialized` is the JSON text of
/// the detail's item list, `None` where serialising it failed.
pub fn lot_detail_row(detail: &LotDetail, barangs_serialized: Option<String>) -> (row: LotDetailRow)
    ensures
        is_detail_row_of(row, *detail, barangs_serialized),
{
    let views: u32 = match detail.views {
        Some(v) => v,
        None => 0,
    };
    let mut seller_nama = String::new();
    let mut seller_organisasi = String::new();
    let mut seller_telepon = String::new();
    let mut seller_alamat = String::new();
    let mut seller_kota = String::new();
    let mut seller_provinsi = String::new();
    let mut organizer_unit_kerja = String::new();
    let mut organizer_bank = String::new();
    let mut organizer_telepon = String::new();
    let mut organizer_alamat = String::new();
    let barangs_json;
    match &detail.content {
        Some(content) => {
            if let Some(s) = &content.seller {
                seller_nama = or_empty(&s.nama_penjual);
                seller_organisasi = or_empty(&s.nama_organisasi_penjual);
                seller_telepon = or_empty(&s.nomor_telepon);
                seller_alamat = or_empty(&s.alamat);
                seller_kota = or_empty(&s.nama_kota);
                seller_provinsi = or_empty(&s.nama_provinsi);
            }
            if let Some(o) = &content.organizer {
                organizer_unit_kerja = or_empty(&o.nama_unit_kerja);
                organizer_bank = or_empty(&o.nama_bank);
                organizer_telepon = or_empty(&o.nomor_telepon);
                organizer_alamat = or_empty(&o.alamat);
            }
            barangs_json = match barangs_serialized {
                Some(s) => s,
                None => owned("[]"),
            };
        },
        None => {
            barangs_json = owned("[]");
        },
    }
    LotDetailRow {
        id: detail.id.clone(),
        lot_lelang_id: detail.lot_lelang_id.clone(),
        kode_lot: or_empty(&detail.kode_lot),
        views: views as i32,
        seller_nama,
        seller_organisasi,
        seller_telepon,
        seller_alamat,
        seller_kota,
        seller_provinsi,
        organizer_unit_kerja,
        organizer_bank,
        organizer_telepon,
        organizer_alamat,
        barangs_json,
    }
}

/// Where the two tables are exported to.
#[derive(Clone, Debug, PartialEq, Eq)]
pub struct ExportPaths {
    pub catalog: String,
    pub details: String,
}

/// The Parquet files of the export: `catalog_lots.parquet` and
/// `lot_details.parquet` in `output_dir`.
pub fn export_paths(output_dir: &str) -> (res: ExportPaths)
    ensures
        res.catalog@ == output_dir@ + "/catalog_lots.parquet"@,
        res.details@ == output_dir@ + "/lot_details.parquet"@,
{
    let mut catalog = owned(output_dir);
    catalog.append("/catalog_lots.parquet");
    let mut details = owned(output_dir);
    details.append("/lot_details.parquet");
    ExportPaths { catalog, details }
}

/// The statement that copies `table` to a Parquet file at `path`.
pub fn copy_to_parquet(table: &str, path: &str) -> (res: String)
    ensures
        res@ == "COPY "@ + table@ + " TO '"@ + path@ + "' (FORMAT PARQUET)"@,
{
    let mut sql = owned("COPY ");
    sql.append(table);
    sql.append(" TO '");
    sql.append(path);
    sql.append("' (FORMAT PARQUET)");
    sql
}

/// Whether the lot details are exported: only when the table has rows.
pub fn exports_details(detail_rows: i64) -> (res: bool)
    ensures
        res == (detail_rows > 0),
{
    detail_rows > 0
}

/// Whether the summary breaks the catalogue down by status: only when the
/// catalogue has rows.
pub fn shows_status_breakdown(catalog_rows: i64) -> (res: bool)
    ensures
        res == (catalog_rows > 0),
{
    catalog_rows > 0
}

/// One line of the status breakdown.
pub open spec fn status_line(status: Seq<char>, count: int) -> Seq<char> {
    "    "@ + status + ": "@ + signed_decimal(count)
}

/// The lines of the store summary: the row counts of both tables, then,
/// when the catalogue has rows, a line per status with its count.
pub open spec fn stats_text(
    catalog_rows: i64,
    detail_rows: i64,
    statuses: Seq<(String, i64)>,
) -> Seq<Seq<char>> {
    seq![
        "  catalog_lots:  "@ + signed_decimal(catalog_rows as int) + " rows"@,
        "  lot_details:   "@ + signed_decimal(detail_rows as int) + " rows"@,
    ] + if catalog_rows > 0 {
        seq!["  Status breakdown:"@] + statuses.map_values(
            |p: (String, i64)| status_line(p.0@, p.1 as int),
        )
    } else {
        Seq::empty()
    }
}

/// The views of a list of lines.
pub open spec fn line_views(lines: Seq<String>) -> Seq<Seq<char>> {
    lines.map_values(|l: String| l@)
}

/// The summary of the store, line by line; `statuses` are the catalogue's
/// statuses with their row counts.
pub fn stats_lines(catalog_rows: i64, detail_rows: i64, statuses: &[(String, i64)]) -> (res: Vec<
    String,
>)
    ensures
        line_views(res@) == stats_text(catalog_rows, detail_rows, statuses@),
{
    let mut lines: Vec<String> = Vec::new();
    let mut first = owned("  catalog_lots:  ");
    first.append(signed_decimal_text(catalog_rows).as_str());
    first.append(" rows");
    lines.push(first);
    let mut second = owned("  lot_details:   ");
    second.append(signed_decimal_text(detail_rows).as_str());
    second.append(" rows");
    lines.push(second);
    if catalog_rows > 0 {
        lines.push(owned("  Status breakdown:"));
        let ghost head = line_views(lines@);
        for i in 0..statuses.len()
            invariant
                line_views(lines@) == head + statuses@.take(i as int).map_values(
                    |p: (String, i64)| status_line(p.0@, p.1 as int),
                ),
        {
            let ghost before = lines@;
            let mut line = owned("    ");
            line.append(statuses[i].0.as_str());
            line.append(": ");
            line.append(signed_decimal_text(statuses[i].1).as_str());
            lines.push(line);
            assert(line_views(lines@) =~= line_views(before).push(line@));
            assert(statuses@.take(i + 1).map_values(
                |p: (String, i64)| status_line(p.0@, p.1 as int),
            ) =~= statuses@.take(i as int).map_values(
                |p: (String, i64)| status_line(p.0@, p.1 as int),
            ).push(status_line(statuses@[i as int].0@, statuses@[i as int].1 as int)));
        }
        assert(statuses@.take(statuses@.len() as int) == statuses@);
    }
    assert(line_views(lines@) =~= stats_text(catalog_rows, detail_rows, statuses@));
    lines
}

/// A text column holds the optional field's text, or nothing where the field
/// is absent.
pub open spec fn column_holds(column: Seq<char>, field: Option<String>) -> bool {
    match field {
        Some(t) => column == t@,
        None => column.len() == 0,
    }
}

/// The value of a `u32` stored in a signed 32-bit column: itself up to
/// `i32::MAX`, wrapped below zero above it.
pub open spec fn stored_i32(v: u32) -> int {
    if v <= 2147483647 {
        v as int
    } else {
        v - 4294967296
    }
}

/// Each column of a catalogue row is the like-named field of the item: texts
/// as they are (empty where absent), money parsed, the version wrapped into
/// 32 signed bits (0 where absent).
pub proof fn law_catalog_row_columns(row: CatalogRow, item: CatalogItem)
    requires
        is_catalog_row_of(row, item),
    ensures
        row.id@ == item.id@,
        row.lot_lelang_id@ == item.lot_lelang_id@,
        row.nama_lot_lelang@ == item.nama_lot_lelang@,
        row.nilai_limit == money_value(item.nilai_limit@),
        row.uang_jaminan == money_value(item.uang_jaminan@),
        column_holds(row.tanggal_batas_jaminan@, item.tanggal_batas_jaminan),
        column_holds(row.nama_lokasi@, item.nama_lokasi),
        column_holds(row.unit_kerja_id@, item.unit_kerja_id),
        column_holds(row.nama_unit_kerja@, item.nama_unit_kerja),
        column_holds(row.tgl_mulai_lelang@, item.tgl_mulai_lelang),
        column_holds(row.tgl_selesai_lelang@, item.tgl_selesai_lelang),
        column_holds(row.status@, item.status),
        column_holds(row.cara_penawaran@, item.cara_penawaran),
        row.version == match item.version {
            Some(v) => stored_i32(v),
            None => 0,
        },
{
    match item.version {
        Some(v) => {
            assert((v as i32) as int == stored_i32(v)) by (bit_vector);
        },
        None => {},
    }
}

/// Each column of a detail row is the like-named field of the detail: the
/// seller's and the organiser's fields where the detail names them (empty
/// where the field, the seller or organiser, or the content is absent), the
/// views wrapped into 32 signed bits (0 where absent), and the item list's
/// JSON where the detail has content and it was serialised, `[]` otherwise.
pub proof fn law_detail_row_columns(row: LotDetailRow, d: LotDetail, serialized: Option<String>)
    requires
        is_detail_row_of(row, d, serialized),
    ensures
        row.id@ == d.id@,
        row.lot_lelang_id@ == d.lot_lelang_id@,
        column_holds(row.kode_lot@, d.kode_lot),
        row.views == match d.views {
            Some(v) => stored_i32(v),
            None => 0,
        },
        match d.content {
            Some(c) => match c.seller {
                Some(s) => {
                    &&& column_holds(row.seller_nama@, s.nama_penjual)
                    &&& column_holds(row.seller_organisasi@, s.nama_organisasi_penjual)
                    &&& column_holds(row.seller_telepon@, s.nomor_telepon)
                    &&& column_holds(row.seller_alamat@, s.alamat)
                    &&& column_holds(row.seller_kota@, s.nama_kota)
                    &&& column_holds(row.seller_provinsi@, s.nama_provinsi)
                },
                None => {
                    &&& row.seller_nama@.len() == 0
                    &&& row.seller_organisasi@.len() == 0
                    &&& row.seller_telepon@.len() == 0
                    &&& row.seller_alamat@.len() == 0
                    &&& row.seller_kota@.len() == 0
                    &&& row.seller_provinsi@.len() == 0
                },
            },
            None => {
                &&& row.seller_nama@.len() == 0
                &&& row.seller_organisasi@.len() == 0
                &&& row.seller_telepon@.len() == 0
                &&& row.seller_alamat@.len() == 0
                &&& row.seller_kota@.len() == 0
                &&& row.seller_provinsi@.len() == 0
            },
        },
        match d.content {
            Some(c) => match c.organizer {
                Some(o) => {
                    &&& column_holds(row.organizer_unit_kerja@, o.nama_unit_kerja)
                    &&& column_holds(row.organizer_bank@, o.nama_bank)
                    &&& column_holds(row.organizer_telepon@, o.nomor_telepon)
                    &&& column_holds(row.organizer_alamat@, o.alamat)
                },
                None => {
                    &&& row.organizer_unit_kerja@.len() == 0
                    &&& row.organizer_bank@.len() == 0
                    &&& row.organizer_telepon@.len() == 0
                    &&& row.organizer_alamat@.len() == 0
                },
            },
            None => {
                &&& row.organizer_unit_kerja@.len() == 0
                &&& row.organizer_bank@.len() == 0
                &&& row.organizer_telepon@.len() == 0
                &&& row.organizer_alamat@.len() == 0
            },
        },
        row.barangs_json@ == match (d.content, serialized) {
            (Some(_), Some(j)) => j@,
            _ => "[]"@,
        },
{
    match d.views {
        Some(v) => {
            assert((v as i32) as int == stored_i32(v)) by (bit_vector);
        },
        None => {},
    }
}

/// The summary gives the two row counts first; a status breakdown follows
/// (a heading, then one line per status in order) only when the catalogue
/// has rows.
pub proof fn law_stats_layout(catalog_rows: i64, detail_rows: i64, statuses: Seq<(String, i64)>)
    ensures
        stats_text(catalog_rows, detail_rows, statuses)[0] == "  catalog_lots:  "@ + signed_decimal(
            catalog_rows as int,
        ) + " rows"@,
        stats_text(catalog_rows, detail_rows, statuses)[1] == "  lot_details:   "@ + signed_decimal(
            detail_rows as int,
        ) + " rows"@,
        catalog_rows <= 0 ==> stats_text(catalog_rows, detail_rows, statuses).len() == 2,
        catalog_rows > 0 ==> stats_text(catalog_rows, detail_rows, statuses).len() == statuses.len()
            + 3,
        catalog_rows > 0 ==> forall|i: int|
            0 <= i < statuses.len() ==> #[trigger] stats_text(catalog_rows, detail_rows, statuses)[i
                + 3] == "    "@ + statuses[i].0@ + ": "@ + signed_decimal(statuses[i].1 as int),
{
}

} // verus!
