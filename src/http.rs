//! The wire codec: request lines in, response bytes out.

pub mod methods;
pub mod request;
pub mod response;
