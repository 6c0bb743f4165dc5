//! Core logic of a personal e-reading service: splitting an uploaded
//! plain-text book into addressable chapters (with a small CJK-numeral
//! interpreter) and reconciling periodic reading-position reports from
//! multiple devices into a single authoritative position and reading-time
//! counter.  Persistence, transport and identity are collaborators that the
//! surrounding application provides; everything here is pure and verified.

pub mod auth;
pub mod chars;
pub mod content;
pub mod errors;
pub mod extractor;
pub mod headings;
pub mod models;
pub mod numerals;
pub mod segmenter;
pub mod sync;
pub mod validate;
