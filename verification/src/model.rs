//! The records that the auction API returns, as the library holds them.
use vstd::prelude::*;

verus! {

/// Envelope of a paginated response from the catalogue API.
#[derive(Clone, Debug, PartialEq, Eq)]
pub struct PaginatedResponse<T> {
    pub code: u32,
    pub message: String,
    pub data: T,
    pub page: Option<u32>,
    pub per_page: Option<u32>,
    pub total_page: Option<u32>,
    pub total_item: Option<u32>,
}

/// Envelope of a response from the reference-data (auth) API.
#[derive(Clone, Debug, PartialEq, Eq)]
pub struct AuthApiResponse<T> {
    pub status: u32,
    pub message: String,
    pub data: T,
    pub total_item: Option<u32>,
}

/// A province of Indonesia as the reference API lists it.
#[derive(Clone, Debug, PartialEq, Eq)]
pub struct Province {
    pub id: String,
    pub nama: String,
    pub full_code: Option<String>,
    pub code: Option<String>,
}

/// One lot of the auction catalogue.
#[derive(Clone, Debug, PartialEq, Eq)]
pub struct CatalogItem {
    pub id: String,
    pub lot_lelang_id: String,
    pub nama_lot_lelang: String,
    pub nilai_limit: String,
    pub uang_jaminan: String,
    pub tanggal_batas_jaminan: Option<String>,
    pub nama_lokasi: Option<String>,
    pub unit_kerja_id: Option<String>,
    pub nama_unit_kerja: Option<String>,
    pub tgl_mulai_lelang: Option<String>,
    pub tgl_selesai_lelang: Option<String>,
    pub status: Option<String>,
    pub cara_penawaran: Option<String>,
    pub version: Option<u32>,
}

/// The detail page of one lot.
#[derive(Clone, Debug, PartialEq, Eq)]
pub struct LotDetail {
    pub id: String,
    pub permohonan_id: Option<String>,
    pub lot_lelang_id: String,
    pub nama_lot_lelang: String,
    pub nilai_limit: String,
    pub uang_jaminan: String,
    pub kode_lot: Option<String>,
    pub tanggal_batas_jaminan: Option<String>,
    pub nama_lokasi: Option<String>,
    pub unit_kerja_id: Option<String>,
    pub nama_unit_kerja: Option<String>,
    pub tgl_mulai_lelang: Option<String>,
    pub tgl_selesai_lelang: Option<String>,
    pub status: Option<String>,
    pub cara_penawaran: Option<String>,
    pub version: Option<u32>,
    pub content: Option<LotContent>,
    pub views: Option<u32>,
}

/// What a lot consists of and who sells and organises it. Each attachment
/// is kept as the JSON text the API sent for it.
#[derive(Clone, Debug, PartialEq, Eq)]
pub struct LotContent {
    pub barangs: Option<Vec<Barang>>,
    pub seller: Option<Seller>,
    pub organizer: Option<Organizer>,
    pub attachments: Option<Vec<String>>,
}

/// One item (land, house, vehicle, ...) of a lot.
#[derive(Clone, Debug, PartialEq, Eq)]
pub struct Barang {
    pub id: String,
    pub nama: Option<String>,
    pub bukti_kepemilikan: Option<String>,
    pub bukti_kepemilikan_no: Option<String>,
    pub alamat: Option<String>,
    pub luas: Option<String>,
    pub stnk: Option<String>,
    pub nomor_rangka: Option<String>,
    pub nopol: Option<String>,
    pub tahun: Option<String>,
    pub warna: Option<String>,
    pub jenis_barang: Option<JenisRef>,
    pub jenis_objek: Option<JenisRef>,
}

/// A reference to a kind of item or object.
#[derive(Clone, Debug, PartialEq, Eq)]
pub struct JenisRef {
    pub id: String,
    pub nama: String,
}

/// The seller of a lot.
#[derive(Clone, Debug, PartialEq, Eq)]
pub struct Seller {
    pub nama_penjual: Option<String>,
    pub nama_organisasi_penjual: Option<String>,
    pub nomor_telepon: Option<String>,
    pub alamat: Option<String>,
    pub nama_kota: Option<String>,
    pub nama_provinsi: Option<String>,
}

/// The office that organises the auction of a lot.
#[derive(Clone, Debug, PartialEq, Eq)]
pub struct Organizer {
    pub nama_unit_kerja: Option<String>,
    pub nama_bank: Option<String>,
    pub nomor_telepon: Option<String>,
    pub alamat: Option<String>,
}

} // verus!
