use simple_http_server::http::methods::RequestMethod;
use simple_http_server::http::request::{DecodeError, HttpRequest};
use simple_http_server::http::response::{HttpResponse, HttpStatusCode, HttpVersion};

fn lines(items: &[&str]) -> Vec<String> {
    items.iter().map(|s| s.to_string()).collect()
}

#[test]
fn decodes_get_request_line_and_keeps_body() {
    let req = HttpRequest::try_from(lines(&["GET /x HTTP/1.1", "Host: a", "Accept: */*"])).unwrap();
    assert_eq!(req.method, RequestMethod::GET);
    assert_eq!(req.uri, "/x");
    assert_eq!(req.body, lines(&["Host: a", "Accept: */*"]));
}

#[test]
fn decodes_request_line_without_version() {
    let req = HttpRequest::try_from(lines(&["GET /x"])).unwrap();
    assert_eq!(req.uri, "/x");
    assert!(req.body.is_empty());
}

#[test]
fn decodes_tokens_split_by_any_white_space() {
    let req = HttpRequest::try_from(lines(&["  GET\t\t/a/b.html \u{3000}HTTP/1.1 extra"])).unwrap();
    assert_eq!(req.method, RequestMethod::GET);
    assert_eq!(req.uri, "/a/b.html");
}

#[test]
fn method_token_only_needs_get_prefix() {
    let req = HttpRequest::try_from(lines(&["GETTY /y HTTP/1.1"])).unwrap();
    assert_eq!(req.method, RequestMethod::GET);
    assert_eq!(req.uri, "/y");
}

#[test]
fn post_is_unsupported() {
    let err = HttpRequest::try_from(lines(&["POST /x HTTP/1.1"])).unwrap_err();
    assert_eq!(err, DecodeError::UnsupportedMethod);
}

#[test]
fn lowercase_get_is_unsupported() {
    let err = HttpRequest::try_from(lines(&["get /x HTTP/1.1"])).unwrap_err();
    assert_eq!(err, DecodeError::UnsupportedMethod);
}

#[test]
fn empty_line_sequence_is_incomplete() {
    let err = HttpRequest::try_from(Vec::new()).unwrap_err();
    assert_eq!(err, DecodeError::IncompleteRequest);
}

#[test]
fn single_token_is_malformed() {
    assert_eq!(HttpRequest::try_from(lines(&["GET"])).unwrap_err(), DecodeError::MalformedRequestLine);
    assert_eq!(HttpRequest::try_from(lines(&["   "])).unwrap_err(), DecodeError::MalformedRequestLine);
    assert_eq!(HttpRequest::try_from(lines(&[""])).unwrap_err(), DecodeError::MalformedRequestLine);
}

#[test]
fn method_from_str() {
    assert_eq!(RequestMethod::from_str("GET"), Ok(RequestMethod::GET));
    assert_eq!(RequestMethod::from_str("GET/1"), Ok(RequestMethod::GET));
    assert_eq!(RequestMethod::from_str("GE"), Err(DecodeError::UnsupportedMethod));
    assert_eq!(RequestMethod::from_str("PUT"), Err(DecodeError::UnsupportedMethod));
}

#[test]
fn version_is_http_1_1() {
    assert_eq!(HttpVersion::default().as_str(), "HTTP/1.1");
}

#[test]
fn status_codes() {
    assert_eq!(HttpStatusCode::OK.code(), 200);
    assert_eq!(HttpStatusCode::BadRequest.code(), 400);
    assert_eq!(HttpStatusCode::MovedPermanently.code(), 301);
}

#[test]
fn page_response_encodes_exactly() {
    let r = HttpResponse::from_page(b"hi");
    assert_eq!(r.header, "Content-Length: 2");
    assert_eq!(r.to_bytes(), b"HTTP/1.1 200 OK\r\nContent-Length: 2\r\n\r\nhi".to_vec());
}

#[test]
fn content_length_matches_body_length() {
    let body = vec![7u8; 1234];
    let r = HttpResponse::from_page(&body);
    assert_eq!(r.header, "Content-Length: 1234");
    let bytes = r.to_bytes();
    let head = b"HTTP/1.1 200 OK\r\nContent-Length: 1234\r\n\r\n";
    assert_eq!(&bytes[..head.len()], &head[..]);
    assert_eq!(&bytes[head.len()..], &body[..]);
}

#[test]
fn empty_page_has_zero_length() {
    let r = HttpResponse::from_page(b"");
    assert_eq!(r.to_bytes(), b"HTTP/1.1 200 OK\r\nContent-Length: 0\r\n\r\n".to_vec());
}

#[test]
fn redirect_encodes_exactly() {
    let r = HttpResponse::redirect_to_index();
    assert_eq!(r.status, HttpStatusCode::MovedPermanently);
    assert_eq!(
        r.to_bytes(),
        b"HTTP/1.1 301 Moved permanently\r\nLocation: /index.html\r\n\r\n".to_vec()
    );
}

#[test]
fn bad_request_encodes_exactly() {
    let r = HttpResponse::bad_request();
    assert_eq!(r.to_bytes(), b"HTTP/1.1 400 Bad Request\r\n\r\n\r\n".to_vec());
}

#[test]
fn non_ascii_reason_is_utf8_encoded() {
    let r = HttpResponse::refusal("Refusé".to_string());
    assert_eq!(r.to_bytes(), "HTTP/1.1 400 Refusé\r\n\r\n\r\n".as_bytes().to_vec());
}

#[test]
fn status_code_converts_to_number() {
    assert_eq!(usize::from(&HttpStatusCode::OK), 200);
    assert_eq!(usize::from(&HttpStatusCode::BadRequest), 400);
    assert_eq!(usize::from(&HttpStatusCode::MovedPermanently), 301);
}
