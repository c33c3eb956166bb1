# lelang_scraper

A scraper of the Indonesian state auction catalogue (lelang.go.id) into
DuckDB and Parquet, with its decisions verified by Verus.

- `src/` is the verified library:
  - `model` holds the API records;
  - `money` parses money amounts the way `i64::from_str` does, with 0 for
    anything else;
  - `provinces` resolves province filters (UUIDs or parts of names);
  - `catalog` builds the API addresses and decides how far the paginated
    catalogue walk goes;
  - `retry` decides when a request is sent again (five sendings at most);
  - `geocode` picks the address to geocode, applies the monthly quota and
    builds the Geocoding API request;
  - `calendar` gives the "YYYY-MM" key of the month a moment falls in;
  - `store` lays out the rows of the two tables, the Parquet export and the
    store summary;
  - `report` lays out the province listing and the tally of a detail run;
  - `text` holds the character-level helpers they share.
- `app/` is the command-line program: HTTP (reqwest), JSON (serde), the
  database (duckdb), progress bars and logging. It asks the library what
  to do and does the input and output.
- `tests/` exercises the library on concrete values.
