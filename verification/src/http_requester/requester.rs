//! HTTP requests: the URI with its query parameters, and the outcomes.
use vstd::prelude::*;
use vstd::utf8::encode_utf8;
use crate::common::events::http_request::{HttpRequest, HttpVerb};

verus! {

/// Why a request got no response.
#[derive(Debug, Clone, Copy, PartialEq, Eq, Structural)]
pub enum RequestError {
    /// No response within the request's timeout.
    Timeout,
    /// The connection failed.
    Connection,
    /// The response body could not be read.
    Thread,
}

/// A received response: status code, body, and headers in order (a header
/// without a name continues the previous one).
#[derive(Debug, Clone, PartialEq, Eq)]
pub struct HttpResult {
    pub code: u16,
    pub body: Vec<u8>,
    pub headers: Vec<(Option<String>, Vec<u8>)>,
}

/// The `key=value` parameters, in order, without separators.
pub open spec fn param_string(ps: Seq<(Seq<char>, Seq<char>)>) -> Seq<char>
    decreases ps.len(),
{
    if ps.len() == 0 {
        seq![]
    } else {
        param_string(ps.drop_last()) + ps.last().0 + "="@ + ps.last().1
    }
}

/// Views of string pairs.
pub open spec fn pair_view(ps: Seq<(String, String)>) -> Seq<(Seq<char>, Seq<char>)> {
    ps.map_values(|p: (String, String)| (p.0@, p.1@))
}


/// What is sent for a request: method, headers in order, target URI, body
/// bytes and timeout in milliseconds.
#[derive(Debug, Clone, PartialEq, Eq)]
pub struct RequestPlan {
    pub method: HttpVerb,
    pub headers: Vec<(String, String)>,
    pub uri: String,
    pub body: Vec<u8>,
    pub timeout_ms: u64,
}

/// The target of a request: its URI, with the query parameters appended
/// when there are any.
pub open spec fn request_uri(event: HttpRequest) -> Seq<char> {
    if event.params@.len() == 0 {
        event.uri@
    } else {
        event.uri@ + "?"@ + param_string(pair_view(event.params@))
    }
}

/// The body bytes of a request: its body in UTF-8, empty when it has none.
pub open spec fn request_body(event: HttpRequest) -> Seq<u8> {
    match event.body {
        Some(b) => encode_utf8(b@),
        None => Seq::empty(),
    }
}

/// How the exchange with the server went.
#[derive(Debug, Clone, PartialEq, Eq)]
pub enum Exchange {
    /// No response came within the timeout.
    TimedOut,
    /// The connection failed.
    ConnectionFailed,
    /// A response came with this status and these headers; its first body
    /// chunk, when there was one, read or failed.
    Answered { code: u16, headers: Vec<(Option<String>, Vec<u8>)>, body: Option<Result<Vec<u8>, ()>> },
}

/// Builds and judges HTTP requests.
pub struct Requester;

impl Requester {
    /// A requester.
    pub fn new() -> Requester {
        Requester
    }

    /// The URI of a request with query parameters: `uri?` followed by each
    /// `key=value`.
    pub fn uri_with_params(uri: &str, params: &Vec<(String, String)>) -> (r: String)
        ensures
            r@ == uri@ + "?"@ + param_string(pair_view(params@)),
    {
        let mut acc = String::from_str(uri);
        acc.append("?");
        let ghost start = acc@;
        let ghost ps = pair_view(params@);
        let mut i: usize = 0;
        assert(ps.take(0) =~= Seq::<(Seq<char>, Seq<char>)>::empty());
        while i < params.len()
            invariant
                i <= params@.len(),
                ps == pair_view(params@),
                acc@ == start + param_string(ps.take(i as int)),
            decreases params@.len() - i,
        {
            acc.append(params[i].0.as_str());
            acc.append("=");
            acc.append(params[i].1.as_str());
            assert(ps.take(i + 1).drop_last() =~= ps.take(i as int));
            assert(acc@ =~= start + param_string(ps.take(i + 1)));
            i = i + 1;
        }
        assert(ps.take(params@.len() as int) =~= ps);
        acc
    }

    /// What to send for `event`: its method and headers, its URI with the
    /// parameters when there are any, its body and its timeout.
    pub fn plan(event: &HttpRequest) -> (r: RequestPlan)
        ensures
            r.method == event.request_type,
            pair_view(r.headers@) == pair_view(event.headers@),
            r.uri@ == request_uri(*event),
            r.body@ == request_body(*event),
            r.timeout_ms == event.timeout,
    {
        let mut headers: Vec<(String, String)> = Vec::new();
        let mut i: usize = 0;
        while i < event.headers.len()
            invariant
                i <= event.headers@.len(),
                headers@.len() == i,
                forall|j: int| 0 <= j < i ==> (#[trigger] headers@[j]).0@ == event.headers@[j].0@
                    && headers@[j].1@ == event.headers@[j].1@,
            decreases event.headers@.len() - i,
        {
            headers.push((event.headers[i].0.clone(), event.headers[i].1.clone()));
            i = i + 1;
        }
        assert(pair_view(headers@) =~= pair_view(event.headers@));
        let uri = if event.params.len() == 0 {
            event.uri.clone()
        } else {
            Self::uri_with_params(event.uri.as_str(), &event.params)
        };
        let body: Vec<u8> = match &event.body {
            Some(b) => b.as_str().as_bytes_vec(),
            None => Vec::new(),
        };
        RequestPlan { method: event.request_type, headers, uri, body, timeout_ms: event.timeout }
    }

    /// The result of a request from how the exchange went: a timeout, a
    /// failed connection, or a response whose body could not be read are
    /// errors; otherwise the response with its first body chunk.
    pub fn outcome(exchange: Exchange) -> (r: Result<HttpResult, RequestError>)
        ensures
            match exchange {
                Exchange::TimedOut => r == Err::<HttpResult, RequestError>(RequestError::Timeout),
                Exchange::ConnectionFailed => r == Err::<HttpResult, RequestError>(RequestError::Connection),
                Exchange::Answered { code, headers, body } => match body {
                    Some(Ok(b)) => r matches Ok(res) && res.code == code && res.headers == headers && res.body@ == b@,
                    _ => r == Err::<HttpResult, RequestError>(RequestError::Thread),
                },
            },
    {
        match exchange {
            Exchange::TimedOut => Err(RequestError::Timeout),
            Exchange::ConnectionFailed => Err(RequestError::Connection),
            Exchange::Answered { code, headers, body } => match body {
                Some(Ok(b)) => Ok(HttpResult { code, body: b, headers }),
                _ => Err(RequestError::Thread),
            },
        }
    }
}

/// The parameter text of two lists one after the other is the text of the
/// first followed by the text of the second.
pub proof fn params_are_written_in_order(a: Seq<(Seq<char>, Seq<char>)>, b: Seq<(Seq<char>, Seq<char>)>)
    ensures
        param_string(a + b) == param_string(a) + param_string(b),
    decreases b.len(),
{
    if b.len() == 0 {
        assert(a + b =~= a);
        assert(param_string(a) + param_string(b) =~= param_string(a));
    } else {
        params_are_written_in_order(a, b.drop_last());
        assert((a + b).drop_last() =~= a + b.drop_last());
        assert((a + b).last() == b.last());
        assert(param_string(a + b) =~= param_string(a) + param_string(b));
    }
}

/// One parameter is written as its key, `=` and its value.
pub proof fn one_param_is_key_equals_value(key: Seq<char>, value: Seq<char>)
    ensures
        param_string(seq![(key, value)]) == key + "="@ + value,
{
    let ps = seq![(key, value)];
    assert(ps.drop_last() =~= Seq::<(Seq<char>, Seq<char>)>::empty());
    assert(param_string(ps.drop_last()) == Seq::<char>::empty());
    assert(ps.last() == (key, value));
    assert(param_string(ps) == param_string(ps.drop_last()) + key + "="@ + value);
    assert(param_string(ps) =~= key + "="@ + value);
}

/// A request without parameters goes to its URI unchanged; one with
/// parameters to its URI, `?` and the parameters.
pub proof fn request_uri_adds_parameters(event: HttpRequest)
    ensures
        event.params@.len() == 0 ==> request_uri(event) == event.uri@,
        event.params@.len() > 0 ==> request_uri(event) == event.uri@ + "?"@ + param_string(pair_view(event.params@)),
{
}

} // verus!
