//! A URL shortener core: short keys, a two-way in-memory store that keeps
//! forward (key to URL) and reverse (URL to key) lookups mutually inverse,
//! and a service facade used by the HTTP layer.

pub mod interface;
pub mod key;
pub mod laws;
pub mod service;
pub mod shortener;
