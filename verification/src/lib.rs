//! Verified core of a scraper for the Indonesian state auction catalogue
//! (lelang.go.id): the records it reads, how it resolves provinces, pages
//! through the catalogue, retries requests, geocodes lots and lays out the
//! rows it stores.
pub mod text;
pub mod money;
pub mod model;
pub mod provinces;
pub mod retry;
pub mod catalog;
pub mod geocode;
pub mod store;
pub mod report;
pub mod calendar;
