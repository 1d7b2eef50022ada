//! Request handlers: a response for each request.

use crate::http::methods::RequestMethod;
use crate::http::request::HttpRequest;
use crate::http::response::HttpResponse;
use crate::keyed::{
    entries_map, find_key, has_key, keys_distinct, lemma_entry_in_map, lemma_push_entry,
    lemma_replace_entry,
};
use vstd::prelude::*;
use vstd::utf8::encode_utf8;

verus! {

/// Something that answers a request.
pub trait Handler {
    /// Whether `response` is this handler's answer to `http_request`.
    spec fn answers(&self, http_request: HttpRequest, response: HttpResponse) -> bool;

    fn handle(&self, http_request: HttpRequest) -> (r: HttpResponse)
        ensures
            self.answers(http_request, r),
    ;
}

/// The answer when no handler is found for a request: a `400` that says so,
/// with no header and no body.
pub fn default_request_handler(_http_request: HttpRequest) -> (r: HttpResponse)
    ensures
        r.refuses("The desired request was not found"@),
        r.wf(),
{
    HttpResponse::refusal("The desired request was not found".to_owned())
}

/// A handler that answers every request with one fixed page.
pub struct StaticPageHandler {
    page: String,
}

impl StaticPageHandler {
    /// The page served.
    pub closed spec fn page(&self) -> Seq<char> {
        self.page@
    }

    /// A handler serving `page_html_string`.
    pub fn new(page_html_string: String) -> (r: StaticPageHandler)
        ensures
            r.page() == page_html_string@,
    {
        StaticPageHandler { page: page_html_string }
    }

    /// The page as a `200` response, its UTF-8 bytes as the body.
    pub fn respond(&self, http_request: HttpRequest) -> (r: HttpResponse)
        ensures
            r.serves_page(encode_utf8(self.page())),
            r.wf(),
    {
        match http_request.method {
            RequestMethod::GET => HttpResponse::from_page(self.page.as_str().as_bytes()),
        }
    }
}

impl Handler for StaticPageHandler {
    open spec fn answers(&self, http_request: HttpRequest, response: HttpResponse) -> bool {
        response.serves_page(encode_utf8(self.page())) && response.wf()
    }

    fn handle(&self, http_request: HttpRequest) -> (r: HttpResponse) {
        self.respond(http_request)
    }
}

/// A server that hands each request to the handler registered for its URI,
/// or to its default handler, registered for the empty endpoint.
pub struct Server<H: Handler> {
    endpoints: Vec<(String, H)>,
}

impl<H: Handler> Server<H> {
    /// One handler per endpoint, and a default one.
    pub closed spec fn wf(&self) -> bool {
        keys_distinct(self.endpoints@) && has_key(self.endpoints@, Seq::empty())
    }

    /// The handlers by endpoint.
    pub closed spec fn endpoints(&self) -> Map<Seq<char>, H> {
        entries_map(self.endpoints@)
    }

    /// The handler that a request for `uri` goes to.
    pub open spec fn handler_for(&self, uri: Seq<char>) -> H {
        if self.endpoints().contains_key(uri) {
            self.endpoints()[uri]
        } else {
            self.endpoints()[Seq::empty()]
        }
    }

    /// A server whose every request goes to `default_handler`.
    pub fn new(default_handler: H) -> (r: Self)
        ensures
            r.wf(),
            r.endpoints() == Map::<Seq<char>, H>::empty().insert(Seq::empty(), default_handler),
    {
        let mut endpoints: Vec<(String, H)> = Vec::new();
        let entry = (String::new(), default_handler);
        proof {
            lemma_push_entry(endpoints@, entry);
            assert(entries_map(endpoints@) =~= Map::<Seq<char>, H>::empty());
        }
        endpoints.push(entry);
        proof {
            assert(endpoints@[0].0@ == Seq::<char>::empty());
        }
        Server { endpoints }
    }

    /// This server with `handler` registered for `endpoint`, in place of any
    /// handler registered there before.
    pub fn with_endpoint(self, endpoint: &str, handler: H) -> (r: Self)
        requires
            self.wf(),
        ensures
            r.wf(),
            r.endpoints() == self.endpoints().insert(endpoint@, handler),
    {
        let mut endpoints = self.endpoints;
        let key = endpoint.to_owned();
        let ghost before = endpoints@;
        let found = find_key(&endpoints, &key);
        let entry = (key, handler);
        match found {
            Some(i) => {
                proof {
                    lemma_replace_entry(before, i as int, entry);
                    let j = choose|j: int| 0 <= j < before.len() && before[j].0@ == Seq::<char>::empty();
                    assert(before.update(i as int, entry)[j].0@ == Seq::<char>::empty());
                }
                endpoints.set(i, entry);
            },
            None => {
                proof {
                    lemma_push_entry(before, entry);
                    let j = choose|j: int| 0 <= j < before.len() && before[j].0@ == Seq::<char>::empty();
                    assert(before.push(entry)[j].0@ == Seq::<char>::empty());
                }
                endpoints.push(entry);
            },
        }
        Server { endpoints }
    }

    /// Answers a request with the handler registered for its URI, or with the
    /// default handler.
    pub fn handle(&self, http_request: HttpRequest) -> (r: HttpResponse)
        requires
            self.wf(),
        ensures
            self.handler_for(http_request.uri@).answers(http_request, r),
    {
        let i = match find_key(&self.endpoints, &http_request.uri) {
            Some(i) => i,
            None => find_key(&self.endpoints, &String::new()).unwrap(),
        };
        proof {
            lemma_entry_in_map(self.endpoints@, i as int);
        }
        self.endpoints[i].1.handle(http_request)
    }
}

} // verus!
