//! The decisions a server makes for each connection, and the record it
//! keeps of each exchange.

use crate::http::request::{decode_error, decodes_to, DecodeError, HttpRequest};
use crate::http::response::{HttpResponse, HttpStatusCode};
use vstd::prelude::*;

verus! {

/// Takes the request lines of a connection: the request to serve, or the
/// decoding error with the `400` reply that refuses the request.
pub fn accept_request(lines: Vec<String>) -> (r: Result<HttpRequest, (DecodeError, HttpResponse)>)
    ensures
        match r {
            Ok(req) => decodes_to(lines@, req),
            Err((e, reply)) => {
                &&& decode_error(lines@) == Some(e)
                &&& reply.refuses("Bad Request"@)
                &&& reply.wf()
            },
        },
{
    match HttpRequest::try_from(lines) {
        Ok(req) => Ok(req),
        Err(e) => Err((e, HttpResponse::bad_request())),
    }
}

/// What happened on one connection.
pub enum ExchangeSummary {
    /// The connection failed before its peer was known.
    IoError { detail: String },
    /// The request could not be read from the peer.
    UnreadableRequest { peer: String, detail: String },
    /// The request was refused as undecodable, with a `400` reply.
    Refused { peer: String, error: DecodeError },
    /// The reply could not be written to the peer.
    ErrorServing { peer: String, uri: String, detail: String },
    /// The reply was written.
    Served { peer: String, uri: String, status: HttpStatusCode },
}

/// The peer address that a summary records, empty where none is known.
pub open spec fn recorded_peer(s: ExchangeSummary) -> Seq<char> {
    match s {
        ExchangeSummary::IoError { .. } => Seq::empty(),
        ExchangeSummary::UnreadableRequest { peer, .. } => peer@,
        ExchangeSummary::Refused { peer, .. } => peer@,
        ExchangeSummary::ErrorServing { peer, .. } => peer@,
        ExchangeSummary::Served { peer, .. } => peer@,
    }
}

/// The request path that a summary records, empty where none was decoded.
pub open spec fn recorded_uri(s: ExchangeSummary) -> Seq<char> {
    match s {
        ExchangeSummary::ErrorServing { uri, .. } => uri@,
        ExchangeSummary::Served { uri, .. } => uri@,
        _ => Seq::empty(),
    }
}

/// The status that a summary records: that of the reply the peer received.
pub open spec fn recorded_status(s: ExchangeSummary) -> Option<nat> {
    match s {
        ExchangeSummary::Refused { .. } => Some(HttpStatusCode::BadRequest.spec_code()),
        ExchangeSummary::Served { status, .. } => Some(status.spec_code()),
        _ => None,
    }
}

impl ExchangeSummary {
    /// The peer address to record.
    pub fn socket_address(&self) -> (r: String)
        ensures
            r@ == recorded_peer(*self),
    {
        match self {
            ExchangeSummary::IoError { .. } => String::new(),
            ExchangeSummary::UnreadableRequest { peer, .. } => peer.clone(),
            ExchangeSummary::Refused { peer, .. } => peer.clone(),
            ExchangeSummary::ErrorServing { peer, .. } => peer.clone(),
            ExchangeSummary::Served { peer, .. } => peer.clone(),
        }
    }

    /// The request path to record.
    pub fn requested_uri(&self) -> (r: String)
        ensures
            r@ == recorded_uri(*self),
    {
        match self {
            ExchangeSummary::ErrorServing { uri, .. } => uri.clone(),
            ExchangeSummary::Served { uri, .. } => uri.clone(),
            _ => String::new(),
        }
    }

    /// The response status to record.
    pub fn response_status(&self) -> (r: Option<usize>)
        ensures
            match r {
                Some(c) => recorded_status(*self) == Some(c as nat),
                None => recorded_status(*self) is None,
            },
    {
        match self {
            ExchangeSummary::Refused { .. } => Some(HttpStatusCode::BadRequest.code()),
            ExchangeSummary::Served { status, .. } => Some(status.code()),
            _ => None,
        }
    }
}

} // verus!
