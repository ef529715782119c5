//! Content resolution and playlist aggregation for a media catalog service.
//!
//! The library decides every reply of the catalog's four operations from plain
//! values: what the document store returned, whether an asset file could be
//! opened. Reading the store and the disk, and serving HTTP, is left to the
//! program around it.

pub mod asset;
pub mod config;
pub mod content;
pub mod envelope;
pub mod json;
pub mod playlist;
pub mod service;
pub mod store;
