//! Query and control a media player over a session bus, with a short-lived
//! on-disk cache of the "now playing" record.
//!
//! The verified core is: decoding the player's loosely-typed metadata mapping
//! into a strongly-typed [`metadata::Metadata`] record, a canonical text codec
//! for the single-slot cache file, the freshness policy that bounds bus
//! traffic, and the derived song-name and progress queries.

pub mod codec;
pub mod decode;
pub mod metadata;
pub mod numerals;
pub mod queries;
