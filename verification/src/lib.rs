//! Conversion between a directory tree and a single archive container:
//! the decisions of extraction and packing, verified, around a zip codec.

pub mod args;
pub mod codec;
pub mod config;
pub mod error;
pub mod extract;
pub mod laws;
pub mod names;
pub mod pack;
