//! A typed model of TileJSON documents, with their JSON encoding and decoding.
//!
//! A [`TileJson`] describes a set of map tiles: where the tiles are, which
//! zoom levels they cover, and how to show them. [`encode`] writes a
//! document as JSON text and [`decode`] reads one back.
//!
//! Between a document and its text stands a JSON value, a [`Json`]:
//! [`to_json`] and [`from_json`] say which fields are written and how each is
//! read, [`json::render`] writes the value as text, and the JSON parser finds
//! the value in a text. All but the parser is proved; what is taken on trust
//! is in [`backend`].
//!
//! Coordinates are kept as JSON number literals, always with a fraction or an
//! exponent: see [`Number`].

pub mod backend;
pub mod decimal;
pub mod decoding;
pub mod document;
pub mod encoding;
pub mod json;
pub mod laws;
pub mod number;
pub mod scheme;

pub use crate::decoding::{decode, from_json, DecodeError};
pub use crate::document::{
    default_bounds, default_maxzoom, default_minzoom, default_tilejson, default_version, TileJson,
};
pub use crate::encoding::{encode, to_json};
pub use crate::json::{Json, Member};
pub use crate::number::Number;
pub use crate::scheme::Scheme;
