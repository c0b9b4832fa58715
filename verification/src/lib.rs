//! Core engine of a photo archive: a versioned SQLite-backed metadata store,
//! a thumbnail cache with per-photo state, a scan pipeline that reconciles a
//! directory tree with the store under cooperative cancellation, and a bounded
//! LRU cache for decoded images.
//!
//! All decisions the engine makes (schema migration order, store updates,
//! scan bookkeeping, cache eviction, conditional HTTP replies) are verified;
//! calls into SQLite, sha2, the EXIF parser and the image codecs stand behind
//! small trusted wrappers whose contracts state what those crates document.

pub mod cache;
pub mod db;
pub mod error;
pub mod formats;
pub mod hash;
pub mod http;
pub mod photodb;
pub mod scan;
pub mod schema;
pub mod thumbs;
