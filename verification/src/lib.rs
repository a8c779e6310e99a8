//! Change detection for files that are rendered as images: a metadata cache
//! keyed by file path, content digests, the cached image's location, and the
//! decisions that a viewer takes from them.

pub mod cache;
pub mod digest;
pub mod viewer;
pub mod cli;
pub mod config;
