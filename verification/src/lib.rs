//! Verified core of a cached entity reader: little-endian decoding of raw
//! memory bytes, the entity-list layout, the key-state bitmap, the character
//! roster and the bookkeeping of cached entity pointers.

pub mod bytes;
pub mod interface;
pub mod data;
pub mod cache;
pub mod config;
pub mod network;
pub mod laws;
pub mod input;
