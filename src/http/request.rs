//! Decoding a request from the lines that precede its blank line.

use crate::http::methods::{starts_with_get, RequestMethod};
use crate::text::{
    is_field, lemma_fields_leading_field, lemma_fields_skip_separator, leading_token_pair, tokens,
    white_space,
};
use vstd::prelude::*;

verus! {

/// Why a sequence of request lines is not a request this server can serve.
#[derive(Debug, PartialEq, Eq, Clone, Copy, Structural)]
pub enum DecodeError {
    /// There was no request line at all.
    IncompleteRequest,
    /// The request line holds fewer than two tokens.
    MalformedRequestLine,
    /// The method token does not start with `GET`.
    UnsupportedMethod,
}

/// A decoded request: its method, its URI, and the raw lines after the
/// request line.
#[derive(Clone, Debug)]
pub struct HttpRequest {
    pub method: RequestMethod,
    pub uri: String,
    pub body: Vec<String>,
}

/// The error that decoding `lines` fails with, if any.
pub open spec fn decode_error(lines: Seq<String>) -> Option<DecodeError> {
    if lines.len() == 0 {
        Some(DecodeError::IncompleteRequest)
    } else if tokens(lines[0]@).len() < 2 {
        Some(DecodeError::MalformedRequestLine)
    } else if !starts_with_get(tokens(lines[0]@)[0]) {
        Some(DecodeError::UnsupportedMethod)
    } else {
        None
    }
}

/// The request that `lines` decodes to, when `decode_error(lines)` is `None`:
/// its URI is the second token of the first line, and its body the rest.
pub open spec fn decodes_to(lines: Seq<String>, req: HttpRequest) -> bool {
    &&& decode_error(lines) is None
    &&& req.method == RequestMethod::GET
    &&& req.uri@ == tokens(lines[0]@)[1]
    &&& req.body@ == lines.drop_first()
}

impl HttpRequest {
    /// Decodes the lines of a request, up to (not including) its blank line.
    pub fn try_from(value: Vec<String>) -> (r: Result<HttpRequest, DecodeError>)
        ensures
            match r {
                Ok(req) => decodes_to(value@, req),
                Err(e) => decode_error(value@) == Some(e),
            },
    {
        let mut lines = value;
        if lines.len() == 0 {
            return Err(DecodeError::IncompleteRequest);
        }
        let ghost all = lines@;
        let header = lines.remove(0);
        assert(lines@ == all.drop_first());
        let (method_token, uri) = match leading_token_pair(header.as_str()) {
            Some(pair) => pair,
            None => return Err(DecodeError::MalformedRequestLine),
        };
        let method = match RequestMethod::from_str(method_token.as_str()) {
            Ok(m) => m,
            Err(e) => return Err(e),
        };
        Ok(HttpRequest { method, uri, body: lines })
    }
}

/// The characters of `GET`.
pub open spec fn get_token() -> Seq<char> {
    seq!['G', 'E', 'T']
}

/// The characters of `HTTP/1.1` as it ends a request line.
pub open spec fn version_token() -> Seq<char> {
    seq!['H', 'T', 'T', 'P', '/', '1', '.', '1']
}

/// A request line `GET <uri> HTTP/1.1`, whatever lines follow it, decodes
/// to a `GET` of `uri` whose body is the lines that follow.
pub proof fn lemma_get_request_decodes(lines: Seq<String>, uri: Seq<char>)
    requires
        lines.len() > 0,
        lines[0]@ == get_token() + seq![' '] + uri + seq![' '] + version_token(),
        is_field(uri, white_space()),
    ensures
        decode_error(lines) is None,
        forall|req: HttpRequest|
            decodes_to(lines, req) ==> {
                &&& req.method == RequestMethod::GET
                &&& req.uri@ == uri
                &&& req.body@ == lines.drop_first()
            },
{
    let ws = white_space();
    let tail = seq![' '] + version_token();
    let after_uri = uri + tail;
    let after_get = seq![' '] + after_uri;
    assert(lines[0]@ =~= get_token() + after_get);
    assert(is_field(version_token(), ws));
    assert(is_field(get_token(), ws));
    lemma_fields_leading_field(version_token(), Seq::<char>::empty(), ws);
    assert(version_token() + Seq::<char>::empty() =~= version_token());
    lemma_fields_skip_separator(' ', version_token(), ws);
    lemma_fields_leading_field(uri, tail, ws);
    lemma_fields_skip_separator(' ', after_uri, ws);
    lemma_fields_leading_field(get_token(), after_get, ws);
    assert(tokens(lines[0]@)[0] == get_token());
    assert(tokens(lines[0]@)[1] == uri);
}

/// A request line whose method token does not start with `GET` is refused as
/// an unsupported method, whatever else the request holds.
pub proof fn lemma_other_methods_unsupported(lines: Seq<String>)
    requires
        lines.len() > 0,
        tokens(lines[0]@).len() >= 2,
        !starts_with_get(tokens(lines[0]@)[0]),
    ensures
        decode_error(lines) == Some(DecodeError::UnsupportedMethod),
{
}

/// Without a request line there is no request.
pub proof fn lemma_no_lines_incomplete(lines: Seq<String>)
    requires
        lines.len() == 0,
    ensures
        decode_error(lines) == Some(DecodeError::IncompleteRequest),
{
}

} // verus!
