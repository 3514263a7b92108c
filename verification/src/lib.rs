//! A fake Dutch guest checkout for developing a third-party-script scanner
//! against: the pages, scripts and headers each origin serves, as values.
pub mod scenario;
pub mod text;
pub mod page;
pub mod shop;
pub mod templates;
pub mod clock;
pub mod build_id;
pub mod first_party;
pub mod vendors;
pub mod laws;
