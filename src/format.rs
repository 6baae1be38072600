//! Encodings of the wire values.

pub mod browser_json;
