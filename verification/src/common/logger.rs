//! What the services log: the log format and environment they announce,
//! and the fields each event contributes to a log record.
use vstd::prelude::*;
use crate::common::events::push_notification::PushNotification;
use crate::common::events::application::Application;
use crate::common::events::http_request::HttpRequest;
use crate::common::events::http_response::{HttpResponse, Outcome, SocketError};
use crate::common::events::verb_name;
use crate::common::text::{str_eq, decimal, signed_decimal, u64_to_string, i64_to_string};

verus! {

/// The kind of change a log record reports.
#[derive(Debug, Clone, Copy, PartialEq, Eq, Structural)]
pub enum LogAction {
    ConsumerCreate,
    ConsumerDelete,
    NotificationResult,
}

/// How log records are written.
#[derive(Debug, Clone, Copy, PartialEq, Eq, Structural)]
pub enum LogFormat {
    /// One JSON object per record.
    Json,
    /// Compact, colored text.
    Terminal,
}

/// Builds the settings of the service logger.
pub struct Logger;

impl Logger {
    /// The format for the value of `LOG_FORMAT`: JSON for `json`, text otherwise.
    pub fn log_format(value: Option<&str>) -> (r: LogFormat)
        ensures
            r == (if value matches Some(v) && v@ == "json"@ { LogFormat::Json } else { LogFormat::Terminal }),
    {
        match value {
            Some(v) => if str_eq(v, "json") { LogFormat::Json } else { LogFormat::Terminal },
            None => LogFormat::Terminal,
        }
    }

    /// The environment name for the value of `RUST_ENV`, `development` when unset.
    pub fn environment(value: Option<String>) -> (r: String)
        ensures
            r@ == (match value { Some(v) => v@, None => "development"@ }),
    {
        match value {
            Some(v) => v,
            None => String::from_str("development"),
        }
    }
}

/// Views of key/value pairs.
pub open spec fn pairs_view(v: Seq<(String, String)>) -> Seq<(Seq<char>, Seq<char>)> {
    v.map_values(|p: (String, String)| (p.0@, p.1@))
}

/// The fields a push notification adds to a log record.
pub fn push_notification_fields(event: &PushNotification) -> (r: Vec<(String, String)>)
    ensures
        pairs_view(r@) == seq![
            ("device_token"@, event.device_token@),
            ("universe"@, event.universe@),
            ("correlation_id"@, event.header.correlation_id@),
        ],
{
    let mut r: Vec<(String, String)> = Vec::new();
    r.push((String::from_str("device_token"), event.device_token.clone()));
    r.push((String::from_str("universe"), event.universe.clone()));
    r.push((String::from_str("correlation_id"), event.header.correlation_id.clone()));
    assert(pairs_view(r@) =~= seq![
        ("device_token"@, event.device_token@),
        ("universe"@, event.universe@),
        ("correlation_id"@, event.header.correlation_id@),
    ]);
    r
}

/// The fields an application adds to a log record: its id, and its
/// organization when it has one.
pub fn application_fields(application: &Application) -> (r: Vec<(String, String)>)
    ensures
        pairs_view(r@) == (match application.organization {
            Some(o) => seq![("app_id"@, application.id@), ("organization"@, o@)],
            None => seq![("app_id"@, application.id@)],
        }),
{
    let mut r: Vec<(String, String)> = Vec::new();
    r.push((String::from_str("app_id"), application.id.clone()));
    match &application.organization {
        Some(o) => {
            r.push((String::from_str("organization"), o.clone()));
            assert(pairs_view(r@) =~= seq![("app_id"@, application.id@), ("organization"@, o@)]);
        },
        None => {
            assert(pairs_view(r@) =~= seq![("app_id"@, application.id@)]);
        },
    }
    r
}

/// The name of a socket error, as its debug form prints it.
pub open spec fn socket_error_name(e: SocketError) -> Seq<char> {
    match e {
        SocketError::Timeout => "Timeout"@,
        SocketError::ConnectionError => "ConnectionError"@,
    }
}

/// The status an HTTP response reports in a log record: the status code, or
/// the socket error when no response came.
pub fn http_response_status(response: &HttpResponse) -> (r: String)
    ensures
        r@ == (match response.outcome {
            Outcome::Payload(p) => signed_decimal(p.status_code as int),
            Outcome::ConnectionError(e) => socket_error_name(e),
        }),
{
    match &response.outcome {
        Outcome::Payload(p) => i64_to_string(p.status_code as i64),
        Outcome::ConnectionError(SocketError::Timeout) => String::from_str("Timeout"),
        Outcome::ConnectionError(SocketError::ConnectionError) => String::from_str("ConnectionError"),
    }
}

/// `s` with every `"` preceded by a backslash.
pub open spec fn escape_quotes(s: Seq<char>) -> Seq<char>
    decreases s.len(),
{
    if s.len() == 0 {
        seq![]
    } else if s.last() == '"' {
        escape_quotes(s.drop_last()) + seq!['\\', '"']
    } else {
        escape_quotes(s.drop_last()).push(s.last())
    }
}

/// The `-H "key: value" ` options for the headers, in order.
pub open spec fn curl_headers(hs: Seq<(Seq<char>, Seq<char>)>) -> Seq<char>
    decreases hs.len(),
{
    if hs.len() == 0 {
        seq![]
    } else {
        curl_headers(hs.drop_last()) + "-H \""@ + hs.last().0 + ": "@ + hs.last().1 + "\" "@
    }
}

/// The `key=value` query parameters, in order, without separators.
pub open spec fn curl_params(ps: Seq<(Seq<char>, Seq<char>)>) -> Seq<char>
    decreases ps.len(),
{
    if ps.len() == 0 {
        seq![]
    } else {
        curl_params(ps.drop_last()) + ps.last().0 + "="@ + ps.last().1
    }
}

/// The curl command that repeats an HTTP request.
pub open spec fn curl_command(req: HttpRequest) -> Seq<char> {
    let head = "curl -X "@ + verb_name(req.request_type) + " "@;
    let data = match req.body {
        Some(b) => "--data \""@ + escape_quotes(b@) + "\" "@,
        None => seq![],
    };
    let query = if req.params@.len() == 0 {
        seq![]
    } else {
        "?"@ + curl_params(pairs_view(req.params@))
    };
    head + data + curl_headers(pairs_view(req.headers@)) + req.uri@ + query
}

/// Appends `s` to `out` with every `"` escaped.
fn append_escaped(out: &mut String, s: &str)
    ensures
        final(out)@ == old(out)@ + escape_quotes(s@),
{
    let n = s.unicode_len();
    let mut i: usize = 0;
    let ghost start = out@;
    assert(s@.take(0) =~= Seq::<char>::empty());
    while i < n
        invariant
            n == s@.len(),
            i <= n,
            out@ == start + escape_quotes(s@.take(i as int)),
        decreases n - i,
    {
        let c = s.get_char(i);
        assert(s@.take(i + 1).drop_last() =~= s@.take(i as int));
        assert(s@.take(i + 1).last() == c);
        if c == '"' {
            out.append("\\\"");
            proof {
                reveal_strlit("\\\"");
                assert(out@ =~= start + escape_quotes(s@.take(i + 1)));
            }
        } else {
            let one = s.substring_char(i, i + 1);
            out.append(one);
            proof {
                assert(one@ =~= seq![c]);
                assert(out@ =~= start + escape_quotes(s@.take(i + 1)));
            }
        }
        i = i + 1;
    }
    assert(s@.take(n as int) =~= s@);
}

/// The curl command that repeats `req`: method, escaped body, headers, URI
/// and query parameters.
pub fn curl(req: &HttpRequest) -> (r: String)
    ensures
        r@ == curl_command(*req),
{
    let mut out = String::from_str("curl -X ");
    out.append(req.request_type.as_ref());
    out.append(" ");
    let ghost head = out@;
    match &req.body {
        Some(b) => {
            out.append("--data \"");
            append_escaped(&mut out, b.as_str());
            out.append("\" ");
        },
        None => {},
    }
    let ghost after_data = out@;
    let mut i: usize = 0;
    let ghost hs = pairs_view(req.headers@);
    assert(hs.take(0) =~= Seq::<(Seq<char>, Seq<char>)>::empty());
    while i < req.headers.len()
        invariant
            i <= req.headers@.len(),
            hs == pairs_view(req.headers@),
            out@ == after_data + curl_headers(hs.take(i as int)),
        decreases req.headers@.len() - i,
    {
        let ghost before = out@;
        out.append("-H \"");
        out.append(req.headers[i].0.as_str());
        out.append(": ");
        out.append(req.headers[i].1.as_str());
        out.append("\" ");
        assert(hs.take(i + 1).drop_last() =~= hs.take(i as int));
        assert(out@ =~= after_data + curl_headers(hs.take(i + 1)));
        i = i + 1;
    }
    assert(hs.take(req.headers@.len() as int) =~= hs);
    out.append(req.uri.as_str());
    let ghost after_uri = out@;
    if req.params.len() > 0 {
        out.append("?");
        let ghost after_mark = out@;
        let ghost ps = pairs_view(req.params@);
        let mut j: usize = 0;
        assert(ps.take(0) =~= Seq::<(Seq<char>, Seq<char>)>::empty());
        while j < req.params.len()
            invariant
                j <= req.params@.len(),
                ps == pairs_view(req.params@),
                out@ == after_mark + curl_params(ps.take(j as int)),
            decreases req.params@.len() - j,
        {
            out.append(req.params[j].0.as_str());
            out.append("=");
            out.append(req.params[j].1.as_str());
            assert(ps.take(j + 1).drop_last() =~= ps.take(j as int));
            assert(out@ =~= after_mark + curl_params(ps.take(j + 1)));
            j = j + 1;
        }
        assert(ps.take(req.params@.len() as int) =~= ps);
    }
    assert(out@ =~= curl_command(*req));
    out
}

/// The fields an HTTP request adds to a log record.
pub fn http_request_fields(req: &HttpRequest) -> (r: Vec<(String, String)>)
    ensures
        pairs_view(r@) == seq![
            ("correlation_id"@, req.header.correlation_id@),
            ("request_type"@, verb_name(req.request_type)),
            ("request_body"@, match req.body { Some(b) => b@, None => seq![] }),
            ("timeout"@, decimal(req.timeout as nat)),
            ("curl"@, curl_command(*req)),
        ],
{
    let mut r: Vec<(String, String)> = Vec::new();
    r.push((String::from_str("correlation_id"), req.header.correlation_id.clone()));
    r.push((String::from_str("request_type"), String::from_str(req.request_type.as_ref())));
    let body = match &req.body {
        Some(b) => b.clone(),
        None => String::new(),
    };
    r.push((String::from_str("request_body"), body));
    r.push((String::from_str("timeout"), u64_to_string(req.timeout)));
    r.push((String::from_str("curl"), curl(req)));
    assert(pairs_view(r@) =~= seq![
        ("correlation_id"@, req.header.correlation_id@),
        ("request_type"@, verb_name(req.request_type)),
        ("request_body"@, match req.body { Some(b) => b@, None => seq![] }),
        ("timeout"@, decimal(req.timeout as nat)),
        ("curl"@, curl_command(*req)),
    ]);
    r
}

} // verus!
