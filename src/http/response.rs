//! Responses and their encoding on the wire.

use crate::text::{all_digits, decimal, decimal_text, decimal_value, lemma_decimal_round_trip};
use vstd::prelude::*;
use vstd::slice::slice_to_vec;
use vstd::utf8::encode_utf8;

verus! {

/// The characters of `HTTP/1.1`.
pub open spec fn http_1_1() -> Seq<char> {
    seq!['H', 'T', 'T', 'P', '/', '1', '.', '1']
}

/// The protocol version written on every response; always `HTTP/1.1`.
pub struct HttpVersion(String);

impl HttpVersion {
    #[verifier::type_invariant]
    spec fn is_http_1_1(self) -> bool {
        self.0@ == http_1_1()
    }

    /// The version as text.
    pub fn as_str(&self) -> (r: &str)
        ensures
            r@ == http_1_1(),
    {
        proof {
            use_type_invariant(self);
        }
        self.0.as_str()
    }
}

impl Default for HttpVersion {
    fn default() -> (r: Self) {
        let v = "HTTP/1.1".to_owned();
        proof {
            reveal_strlit("HTTP/1.1");
        }
        assert(v@ =~= http_1_1());
        HttpVersion(v)
    }
}

/// The status of a response.
#[derive(Debug, PartialEq, Eq, Clone, Copy, Structural)]
pub enum HttpStatusCode {
    OK,
    BadRequest,
    MovedPermanently,
}

impl HttpStatusCode {
    /// The numeric status code.
    pub open spec fn spec_code(self) -> nat {
        match self {
            HttpStatusCode::OK => 200,
            HttpStatusCode::BadRequest => 400,
            HttpStatusCode::MovedPermanently => 301,
        }
    }

    /// The numeric status code.
    pub fn code(&self) -> (r: usize)
        ensures
            r == self.spec_code(),
    {
        match self {
            HttpStatusCode::OK => 200,
            HttpStatusCode::BadRequest => 400,
            HttpStatusCode::MovedPermanently => 301,
        }
    }
}

impl From<&HttpStatusCode> for usize {
    fn from(value: &HttpStatusCode) -> (r: usize) {
        value.code()
    }
}

impl vstd::std_specs::convert::FromSpecImpl<&HttpStatusCode> for usize {
    open spec fn obeys_from_spec() -> bool {
        true
    }

    open spec fn from_spec(v: &HttpStatusCode) -> usize {
        v.spec_code() as usize
    }
}

/// A response: status line parts, a header block, and a body.
pub struct HttpResponse {
    pub version: HttpVersion,
    pub status: HttpStatusCode,
    pub reason_phrase: String,
    pub header: String,
    pub body: Vec<u8>,
}

/// The characters `Content-Length: `.
pub open spec fn content_length_label() -> Seq<char> {
    seq!['C', 'o', 'n', 't', 'e', 'n', 't', '-', 'L', 'e', 'n', 'g', 't', 'h', ':', ' ']
}

/// The header block that announces a body of `len` bytes.
pub open spec fn content_length_header(len: nat) -> Seq<char> {
    content_length_label() + decimal(len)
}

/// A carriage return and line feed.
pub open spec fn crlf() -> Seq<char> {
    seq!['\r', '\n']
}

/// Whether `s` holds the blank-line separator `\r\n\r\n`.
pub open spec fn contains_blank_line(s: Seq<char>) -> bool {
    exists|i: int| 0 <= i && i + 4 <= s.len() && #[trigger] s.subrange(i, i + 4) == crlf() + crlf()
}

/// Text without a carriage return holds no blank-line separator.
proof fn lemma_no_cr_no_blank_line(s: Seq<char>)
    requires
        forall|i: int| 0 <= i < s.len() ==> s[i] != '\r',
    ensures
        !contains_blank_line(s),
{
    assert forall|i: int| 0 <= i && i + 4 <= s.len() implies #[trigger] s.subrange(i, i + 4)
        != crlf() + crlf() by {
        assert(s.subrange(i, i + 4)[0] == s[i]);
        assert((crlf() + crlf())[0] == '\r');
    }
}

impl HttpResponse {
    /// The text before the body: status line, header block, blank line.
    pub open spec fn head(&self) -> Seq<char> {
        http_1_1() + seq![' '] + decimal(self.status.spec_code()) + seq![' '] + self.reason_phrase@
            + crlf() + self.header@ + crlf() + crlf()
    }

    /// The bytes of this response on the wire.
    pub open spec fn wire(&self) -> Seq<u8> {
        encode_utf8(self.head()) + self.body@
    }

    /// The header block does not itself hold the blank-line separator.
    pub open spec fn wf(&self) -> bool {
        !contains_blank_line(self.header@)
    }

    /// Whether this is the `200 OK` response that serves `page`.
    pub open spec fn serves_page(&self, page: Seq<u8>) -> bool {
        &&& self.status == HttpStatusCode::OK
        &&& self.reason_phrase@ == "OK"@
        &&& self.header@ == content_length_header(page.len())
        &&& self.body@ == page
    }

    /// Whether this is the redirect to `/index.html`.
    pub open spec fn redirects_to_index(&self) -> bool {
        &&& self.status == HttpStatusCode::MovedPermanently
        &&& self.reason_phrase@ == "Moved permanently"@
        &&& self.header@ == "Location: /index.html"@
        &&& self.body@.len() == 0
    }

    /// Whether this is a `400` response with the given reason and nothing else.
    pub open spec fn refuses(&self, reason: Seq<char>) -> bool {
        &&& self.status == HttpStatusCode::BadRequest
        &&& self.reason_phrase@ == reason
        &&& self.header@.len() == 0
        &&& self.body@.len() == 0
    }

    /// The `200 OK` response that serves `body`, with its length announced.
    pub fn from_page(body: &[u8]) -> (r: Self)
        ensures
            r.serves_page(body@),
            r.wf(),
    {
        let mut header = "Content-Length: ".to_owned();
        proof {
            reveal_strlit("Content-Length: ");
        }
        assert(header@ =~= content_length_label());
        let len_text = decimal_text(body.len());
        header.append(len_text.as_str());
        proof {
            lemma_decimal_round_trip(body@.len());
            assert(all_digits(len_text@));
            assert forall|i: int| 0 <= i < header@.len() implies header@[i] != '\r' by {
                if i >= 16 {
                    assert(header@[i] == len_text@[i - 16]);
                }
            }
            lemma_no_cr_no_blank_line(header@);
        }
        HttpResponse {
            version: HttpVersion::default(),
            status: HttpStatusCode::OK,
            reason_phrase: "OK".to_owned(),
            header,
            body: slice_to_vec(body),
        }
    }

    /// The redirect that sends a client to `/index.html`.
    pub fn redirect_to_index() -> (r: Self)
        ensures
            r.redirects_to_index(),
            r.wf(),
    {
        let header = "Location: /index.html".to_owned();
        proof {
            reveal_strlit("Location: /index.html");
            lemma_no_cr_no_blank_line(header@);
        }
        HttpResponse {
            version: HttpVersion::default(),
            status: HttpStatusCode::MovedPermanently,
            reason_phrase: "Moved permanently".to_owned(),
            header,
            body: Vec::new(),
        }
    }

    /// A `400` response with the given reason phrase, no header and no body.
    pub fn refusal(reason_phrase: String) -> (r: Self)
        ensures
            r.refuses(reason_phrase@),
            r.wf(),
    {
        let header = String::new();
        proof {
            lemma_no_cr_no_blank_line(header@);
        }
        HttpResponse {
            version: HttpVersion::default(),
            status: HttpStatusCode::BadRequest,
            reason_phrase,
            header,
            body: Vec::new(),
        }
    }

    /// The reply to a request that could not be decoded.
    pub fn bad_request() -> (r: Self)
        ensures
            r.refuses("Bad Request"@),
            r.wf(),
    {
        HttpResponse::refusal("Bad Request".to_owned())
    }

    /// Encodes the response: status line, header block, blank line, body.
    pub fn to_bytes(&self) -> (r: Vec<u8>)
        ensures
            r@ == self.wire(),
    {
        let mut head = self.version.as_str().to_owned();
        let code_text = decimal_text(usize::from(&self.status));
        proof {
            reveal_strlit(" ");
            reveal_strlit("\r\n");
        }
        head.append(" ");
        head.append(code_text.as_str());
        head.append(" ");
        head.append(self.reason_phrase.as_str());
        head.append("\r\n");
        head.append(self.header.as_str());
        head.append("\r\n");
        head.append("\r\n");
        assert(head@ =~= self.head());
        let mut out = slice_to_vec(head.as_str().as_bytes());
        let ghost prefix = out@;
        let mut i: usize = 0;
        while i < self.body.len()
            invariant
                i <= self.body@.len(),
                out@ == prefix + self.body@.subrange(0, i as int),
            decreases self.body@.len() - i,
        {
            out.push(self.body[i]);
            i = i + 1;
            assert(out@ =~= prefix + self.body@.subrange(0, i as int));
        }
        assert(self.body@.subrange(0, i as int) =~= self.body@);
        out
    }
}

/// The status line `HTTP/1.1 200 OK` with its line end.
pub open spec fn ok_status_line() -> Seq<char> {
    http_1_1() + seq![' ', '2', '0', '0', ' ', 'O', 'K'] + crlf()
}

/// A page response frames its page exactly: after the status line comes a
/// single `Content-Length` line whose numeral reads back as the page's
/// length, then the blank line, then the page itself.
pub proof fn lemma_page_framing(r: HttpResponse, page: Seq<u8>)
    requires
        r.serves_page(page),
    ensures
        r.wire() == encode_utf8(
            ok_status_line() + content_length_label() + decimal(page.len()) + crlf() + crlf(),
        ) + page,
        decimal_value(decimal(page.len())) == page.len(),
{
    reveal_with_fuel(decimal, 3);
    reveal_strlit("OK");
    assert(decimal(200) =~= seq!['2', '0', '0']);
    assert(r.head() =~= ok_status_line() + content_length_label() + decimal(page.len()) + crlf()
        + crlf());
    lemma_decimal_round_trip(page.len());
}

} // verus!
