//! Typed records for a cryptocurrency market-data service.
//!
//! The service answers two fixed queries with JSON: an array of per-currency
//! market snapshots, and one aggregate object for the whole market.  This
//! crate decodes those documents into typed records, coercing the numeric
//! fields that arrive quoted as strings, and reports a typed error naming the
//! offending field otherwise.  The decoding is pure and network-free; a
//! caller supplies the fetched text.

pub mod decode;
pub mod errors;
pub mod json;
pub mod laws;
pub mod num;
pub mod parse;

pub use decode::{
    decode_global, decode_symbols, global_from_json, symbols_from_json, Global, Symbol,
};
pub use errors::DecodeError;
pub use json::Json;
