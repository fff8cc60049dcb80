//! The answer published for each HTTP request event.
use vstd::prelude::*;
use vstd::utf8::{valid_utf8, decode_utf8};
use crate::common::events::http_request::HttpRequest;
use crate::common::events::http_response::{HttpResponse, Outcome, Payload, SocketError};
use crate::common::events::rpc::Response;
use crate::common::registry::{Registry, entries_map, key_seq};
use crate::common::text::{decimal, u64_to_string, utf8_decode};
use crate::http_requester::requester::{HttpResult, RequestError};

verus! {

/// An HTTP response event to publish under `key`, counted under `counter_label`.
pub struct HttpPublication {
    pub key: Option<Vec<u8>>,
    pub counter_label: String,
    pub response: HttpResponse,
}

/// Whether a header value byte is visible ASCII (or a tab).
pub open spec fn visible_ascii(b: u8) -> bool {
    (32 <= b && b < 127) || b == 9
}

/// The text of a header value: the value itself when it is visible ASCII,
/// empty otherwise.
pub open spec fn header_text(v: Seq<u8>) -> Seq<char> {
    if (forall|i: int| 0 <= i < v.len() ==> visible_ascii(#[trigger] v[i])) && valid_utf8(v) {
        decode_utf8(v)
    } else {
        seq![]
    }
}

/// The headers of a response as a map: named headers in order, a later one
/// replacing an earlier one with the same name; unnamed ones are skipped.
pub open spec fn header_map(hs: Seq<(Option<String>, Vec<u8>)>) -> Map<Seq<char>, Seq<char>>
    decreases hs.len(),
{
    if hs.len() == 0 {
        Map::empty()
    } else {
        match hs.last().0 {
            Some(k) => header_map(hs.drop_last()).insert(k@, header_text(hs.last().1@)),
            None => header_map(hs.drop_last()),
        }
    }
}

/// The body as text: the body itself when it is UTF-8, `<BYTES>` otherwise.
pub open spec fn body_text(body: Seq<u8>) -> Seq<char> {
    if valid_utf8(body) { decode_utf8(body) } else { "<BYTES>"@ }
}

/// The map view of the response headers in a payload.
pub open spec fn payload_header_map(p: Payload) -> Map<Seq<char>, Seq<char>> {
    entries_map(p.headers@).map_values(|v: String| v@)
}

fn header_value_text(v: &Vec<u8>) -> (r: String)
    ensures
        r@ == header_text(v@),
{
    let mut i: usize = 0;
    while i < v.len()
        invariant
            i <= v@.len(),
            forall|j: int| 0 <= j < i ==> visible_ascii(#[trigger] v@[j]),
        decreases v@.len() - i,
    {
        let b = v[i];
        if !((32 <= b && b < 127) || b == 9) {
            return String::new();
        }
        i = i + 1;
    }
    match utf8_decode(v.as_slice()) {
        Some(s) => s,
        None => String::new(),
    }
}

fn collect_headers(hs: &Vec<(Option<String>, Vec<u8>)>) -> (r: Vec<(String, String)>)
    ensures
        key_seq(r@).no_duplicates(),
        entries_map(r@).map_values(|v: String| v@) == header_map(hs@),
{
    let mut table: Registry<String> = Registry::new();
    let mut i: usize = 0;
    assert(hs@.take(0) =~= Seq::<(Option<String>, Vec<u8>)>::empty());
    assert(table@.map_values(|v: String| v@) =~= Map::<Seq<char>, Seq<char>>::empty());
    while i < hs.len()
        invariant
            i <= hs@.len(),
            table.wf(),
            table@.map_values(|v: String| v@) == header_map(hs@.take(i as int)),
        decreases hs@.len() - i,
    {
        let ghost before = table@;
        assert(hs@.take(i + 1).drop_last() =~= hs@.take(i as int));
        match &hs[i].0 {
            Some(k) => {
                let text = header_value_text(&hs[i].1);
                table.insert(k.clone(), text);
                assert(table@.map_values(|v: String| v@) =~= header_map(hs@.take(i + 1)));
            },
            None => {
                assert(table@.map_values(|v: String| v@) =~= header_map(hs@.take(i + 1)));
            },
        }
        i = i + 1;
    }
    assert(hs@.take(hs@.len() as int) =~= hs@);
    table.into_entries()
}

/// Answers HTTP request events.
pub struct HttpResponseProducer;

impl HttpResponseProducer {
    /// A producer of HTTP answers.
    pub fn new() -> HttpResponseProducer {
        HttpResponseProducer
    }

    /// The answer to `event` for `result`: with a response, its status code,
    /// body text and headers, counted under the status code; without one, the
    /// socket error, counted as `timeout` or `connection` (an unreadable
    /// body counts as a connection error).
    pub fn respond(&self, key: Option<Vec<u8>>, event: HttpRequest, result: Result<HttpResult, RequestError>) -> (r: HttpPublication)
        ensures
            r.key == key,
            r.response.header.field_type@ == "http.HttpResponse"@,
            r.response.header.request == event.header,
            match result {
                Ok(h) => r.counter_label@ == decimal(h.code as nat)
                    && (r.response.outcome matches Outcome::Payload(p)
                        && p.status_code == h.code as i32
                        && p.response_body@ == body_text(h.body@)
                        && key_seq(p.headers@).no_duplicates()
                        && payload_header_map(p) == header_map(h.headers@)),
                Err(RequestError::Timeout) => r.counter_label@ == "timeout"@
                    && r.response.outcome == Outcome::ConnectionError(SocketError::Timeout),
                Err(_) => r.counter_label@ == "connection"@
                    && r.response.outcome == Outcome::ConnectionError(SocketError::ConnectionError),
            },
    {
        let header = Response { field_type: String::from_str("http.HttpResponse"), request: event.header };
        let (label, outcome) = match result {
            Ok(h) => {
                let body = match utf8_decode(h.body.as_slice()) {
                    Some(s) => s,
                    None => String::from_str("<BYTES>"),
                };
                let headers = collect_headers(&h.headers);
                let label = u64_to_string(h.code as u64);
                (label, Outcome::Payload(Payload { response_body: body, status_code: h.code as i32, headers }))
            },
            Err(RequestError::Timeout) => (String::from_str("timeout"), Outcome::ConnectionError(SocketError::Timeout)),
            Err(_) => (String::from_str("connection"), Outcome::ConnectionError(SocketError::ConnectionError)),
        };
        HttpPublication { key, counter_label: label, response: HttpResponse { header, outcome } }
    }
}

} // verus!
