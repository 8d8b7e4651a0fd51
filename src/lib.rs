//! A store of serialised multi-agent transactions that can hand them back
//! either as stored or after a decode / re-encode round trip.
pub mod hex_codec;
pub mod field_reader;
pub mod codec;
pub mod store;
pub mod retrieval;
pub mod service;
pub mod laws;
