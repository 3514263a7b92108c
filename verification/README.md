# cm_testshop

A fake Dutch guest checkout, served from five local origins, for developing a
third-party-script scanner against something you own. Every page, script and
header it serves is computed by a library verified with Verus; a thin binary
serves them over HTTP.

## Layout

- `src/` — the verified library.
  - `scenario.rs`: the scenarios and consent platforms, with their names.
  - `shop.rs`: the run's configuration, the origins, the startup summary.
  - `page.rs`: a response as plain values, and its model; which headers
    HTTP accepts (checked through `axum::http`).
  - `templates.rs`: the fixed text of every page, script and header.
  - `first_party.rs`: the merchant's pages, checkout, assets and `robots.txt`.
  - `vendors.rs`: the tag manager, analytics, payment SDK and rogue scripts.
  - `build_id.rs`: the bundle hash (SHA-256 via `sha2`, hex via `hex`).
  - `clock.rs`: readings of the system clock.
  - `text.rs`: number formatting and substring tests.
  - `laws.rs`: properties of the shop as a whole, proved.
- `app/` — the binary: command line (`clap`), routing and serving (`axum`,
  `tokio`), logging (`tracing`).
- `tests/` — tests of the library against the expected texts.

```sh
cargo run
cargo run -- --scenario new-origin
cargo run -- --cmp onetrust
```
