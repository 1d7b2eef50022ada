//! The request methods this server understands.

use crate::http::request::DecodeError;
use vstd::prelude::*;

verus! {

/// A request method. Only `GET` is served.
#[derive(Debug, PartialEq, Eq, Clone, Copy, Structural)]
pub enum RequestMethod {
    GET,
}

/// Whether a method token names `GET`: it starts with those three letters.
pub open spec fn starts_with_get(token: Seq<char>) -> bool {
    token.len() >= 3 && token[0] == 'G' && token[1] == 'E' && token[2] == 'T'
}

impl RequestMethod {
    /// Reads a method token: anything starting with `GET` is `GET`, and
    /// every other token is refused.
    pub fn from_str(s: &str) -> (r: Result<RequestMethod, DecodeError>)
        ensures
            r == (if starts_with_get(s@) {
                Ok::<RequestMethod, DecodeError>(RequestMethod::GET)
            } else {
                Err(DecodeError::UnsupportedMethod)
            }),
    {
        let n = s.unicode_len();
        if n >= 3 && s.get_char(0) == 'G' && s.get_char(1) == 'E' && s.get_char(2) == 'T' {
            Ok(RequestMethod::GET)
        } else {
            Err(DecodeError::UnsupportedMethod)
        }
    }
}

} // verus!
