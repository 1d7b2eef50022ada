//! A minimal static-file HTTP server: the wire codec, the resource cache and
//! the per-connection decisions, with their contracts.

pub mod handler;
pub mod http;
pub mod keyed;
pub mod text;
pub mod website;
