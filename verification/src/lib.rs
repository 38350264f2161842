//! Storage adapter that makes a time-series database behave as a
//! timestamp-ordered key/value store with tombstones: series names and
//! patterns for keys, filters for time ranges, batching of writes and the
//! decisions behind put, delete and get.
//!
//! The library decides and computes; it never talks to the database. An
//! operation is cut at its exchanges with the database: a function says
//! which statement to send, the caller sends it, and the next function takes
//! the answer.

pub mod batcher;
pub mod config;
pub mod engine;
pub mod key_codec;
pub mod model;
pub mod point;
pub mod query;
pub mod text;
pub mod time_range;
pub mod timestamp;
pub mod value;
