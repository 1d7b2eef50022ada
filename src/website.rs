//! Serving a directory of public files: path resolution, the resource cache,
//! and the per-connection records.

pub mod loaded_file;
pub mod paths;
pub mod server;
pub mod static_website;
