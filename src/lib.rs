//! Cached species descriptions with optional fun translations.
//!
//! The library holds the request orchestration: which upstream call to make
//! next, how results are keyed in the cache, and how a failed translation
//! degrades to the untranslated record. The HTTP plumbing around it lives in
//! the application crate.

pub mod util;
pub mod models;
pub mod cache;
pub mod server;
pub mod api;
