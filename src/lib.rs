//! Thumbnail cache engine for a local image gallery: cache-key derivation,
//! the generate-or-fetch protocol, and directory-scoped invalidation.
pub mod error;
pub mod generator;
pub mod invalidate;
pub mod key;
pub mod listing;
pub mod media;
pub mod naming;
pub mod service;
pub mod store;
pub mod text;
