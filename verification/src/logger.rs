//! How the legacy service logs: levels from the environment, whether a
//! record is printed, how it is printed, and the fields of a push result.
use vstd::prelude::*;
use crate::common::text::{str_eq, opt_view};
use crate::common::logger::pairs_view;
use crate::events::PushNotification;

verus! {

/// Verbosity threshold of console logging, from quietest to most verbose.
#[derive(Debug, Clone, Copy, PartialEq, Eq, Structural)]
pub enum LevelFilter {
    Off,
    Error,
    Warn,
    Info,
    Debug,
    Trace,
}

/// Severity of a GELF record.
#[derive(Debug, Clone, Copy, PartialEq, Eq, Structural)]
pub enum GelfLevel {
    Emergency,
    Alert,
    Critical,
    Error,
    Warning,
    Notice,
    Informational,
    Debug,
}

/// Position of a threshold, from `Off` (0) to `Trace` (5).
pub open spec fn rank(l: LevelFilter) -> int {
    match l {
        LevelFilter::Off => 0,
        LevelFilter::Error => 1,
        LevelFilter::Warn => 2,
        LevelFilter::Info => 3,
        LevelFilter::Debug => 4,
        LevelFilter::Trace => 5,
    }
}

/// The threshold named by the value of `RUST_LOG`; `Info` for anything else.
pub open spec fn filter_from_env(value: Option<Seq<char>>) -> LevelFilter {
    match value {
        Some(v) => if v == "info"@ {
            LevelFilter::Info
        } else if v == "debug"@ {
            LevelFilter::Debug
        } else if v == "warn"@ {
            LevelFilter::Warn
        } else if v == "error"@ {
            LevelFilter::Error
        } else {
            LevelFilter::Info
        },
        None => LevelFilter::Info,
    }
}

/// The GELF level named by the value of `RUST_LOG`; `Informational` for anything else.
pub open spec fn gelf_from_env(value: Option<Seq<char>>) -> GelfLevel {
    match value {
        Some(v) => if v == "info"@ {
            GelfLevel::Informational
        } else if v == "debug"@ {
            GelfLevel::Debug
        } else if v == "warn"@ {
            GelfLevel::Warning
        } else if v == "error"@ {
            GelfLevel::Error
        } else {
            GelfLevel::Informational
        },
        None => GelfLevel::Informational,
    }
}

/// The console threshold of a GELF severity.
pub open spec fn console_level_spec(level: GelfLevel) -> LevelFilter {
    match level {
        GelfLevel::Emergency | GelfLevel::Alert | GelfLevel::Critical | GelfLevel::Error => LevelFilter::Error,
        GelfLevel::Warning => LevelFilter::Warn,
        GelfLevel::Notice | GelfLevel::Informational => LevelFilter::Info,
        GelfLevel::Debug => LevelFilter::Debug,
    }
}

/// The printed name of a threshold.
pub open spec fn filter_name(l: LevelFilter) -> Seq<char> {
    match l {
        LevelFilter::Off => "OFF"@,
        LevelFilter::Error => "ERROR"@,
        LevelFilter::Warn => "WARN"@,
        LevelFilter::Info => "INFO"@,
        LevelFilter::Debug => "DEBUG"@,
        LevelFilter::Trace => "TRACE"@,
    }
}

/// `key: value` pairs joined by `, `.
pub open spec fn metadata_text(ms: Seq<(Seq<char>, Seq<char>)>) -> Seq<char>
    decreases ms.len(),
{
    if ms.len() == 0 {
        seq![]
    } else if ms.len() == 1 {
        ms[0].0 + ": "@ + ms[0].1
    } else {
        metadata_text(ms.drop_last()) + ", "@ + ms.last().0 + ": "@ + ms.last().1
    }
}

/// The console line of a record: `[LEVEL] message: (key: value, ...)`.
pub open spec fn console_line(level: LevelFilter, short_message: Seq<char>, ms: Seq<(Seq<char>, Seq<char>)>) -> Seq<char> {
    "["@ + filter_name(level) + "] "@ + short_message + ": ("@ + metadata_text(ms) + ")"@
}

impl LevelFilter {
    /// The threshold named by the value of `RUST_LOG`.
    pub fn from_env(value: Option<&str>) -> (r: LevelFilter)
        ensures
            r == filter_from_env(match value { Some(v) => Some(v@), None => None }),
    {
        match value {
            Some(v) => {
                if str_eq(v, "info") {
                    LevelFilter::Info
                } else if str_eq(v, "debug") {
                    LevelFilter::Debug
                } else if str_eq(v, "warn") {
                    LevelFilter::Warn
                } else if str_eq(v, "error") {
                    LevelFilter::Error
                } else {
                    LevelFilter::Info
                }
            },
            None => LevelFilter::Info,
        }
    }

    /// The printed name of the threshold.
    pub fn name(&self) -> (r: &'static str)
        ensures
            r@ == filter_name(*self),
    {
        match self {
            LevelFilter::Off => "OFF",
            LevelFilter::Error => "ERROR",
            LevelFilter::Warn => "WARN",
            LevelFilter::Info => "INFO",
            LevelFilter::Debug => "DEBUG",
            LevelFilter::Trace => "TRACE",
        }
    }

    fn rank_of(&self) -> (r: u8)
        ensures
            r == rank(*self),
    {
        match self {
            LevelFilter::Off => 0,
            LevelFilter::Error => 1,
            LevelFilter::Warn => 2,
            LevelFilter::Info => 3,
            LevelFilter::Debug => 4,
            LevelFilter::Trace => 5,
        }
    }
}

impl GelfLevel {
    /// The GELF level named by the value of `RUST_LOG`.
    pub fn from_env(value: Option<&str>) -> (r: GelfLevel)
        ensures
            r == gelf_from_env(match value { Some(v) => Some(v@), None => None }),
    {
        match value {
            Some(v) => {
                if str_eq(v, "info") {
                    GelfLevel::Informational
                } else if str_eq(v, "debug") {
                    GelfLevel::Debug
                } else if str_eq(v, "warn") {
                    GelfLevel::Warning
                } else if str_eq(v, "error") {
                    GelfLevel::Error
                } else {
                    GelfLevel::Informational
                }
            },
            None => GelfLevel::Informational,
        }
    }

    /// The console threshold of this severity.
    pub fn console_level(&self) -> (r: LevelFilter)
        ensures
            r == console_level_spec(*self),
    {
        match self {
            GelfLevel::Emergency | GelfLevel::Alert | GelfLevel::Critical | GelfLevel::Error => LevelFilter::Error,
            GelfLevel::Warning => LevelFilter::Warn,
            GelfLevel::Notice | GelfLevel::Informational => LevelFilter::Info,
            GelfLevel::Debug => LevelFilter::Debug,
        }
    }
}

/// Where a record goes.
#[derive(Debug, Clone, PartialEq, Eq)]
pub enum LogRoute {
    /// To the GELF connection.
    Gelf,
    /// To the console, as this line.
    Print(String),
    /// Nowhere: it is below the threshold.
    Skip,
}

/// How a web push failed, for the log.
#[derive(Debug, Clone, PartialEq, Eq)]
pub enum PushError {
    /// A bad request, with the service's explanation.
    BadRequest(String),
    /// Any other failure, with its debug form.
    Other(String),
}

/// Names the host of the URI that `http::Uri` parses from the text; `None`
/// when it does not parse or has no host.
pub uninterp spec fn uri_host_of(s: Seq<char>) -> Option<Seq<char>>;

/// Calls `str::parse::<hyper::Uri>` and `Uri::host`; the result is tied to the
/// text by the name `uri_host_of`.
#[verifier::external_body]
fn uri_host(s: &str) -> (r: Option<String>)
    ensures
        opt_view(r) == uri_host_of(s@),
{
    match s.parse::<hyper::Uri>() {
        Ok(uri) => match uri.host() {
            Some(h) => Some(h.to_string()),
            None => None,
        },
        Err(_) => None,
    }
}

/// The fields of a push result record.
pub open spec fn push_result_fields_spec(event: PushNotification, error: Option<PushError>) -> Seq<(Seq<char>, Seq<char>)> {
    let base = seq![
        ("correlation_id"@, event.correlation_id@),
        ("device_token"@, event.device_token@),
        ("app_id"@, event.application_id@),
        ("campaign_id"@, event.campaign_id@),
        ("event_source"@, event.header.source@),
    ];
    let service = match uri_host_of(event.device_token@) {
        Some(h) => seq![("push_service"@, h)],
        None => seq![],
    };
    let outcome = match error {
        Some(PushError::BadRequest(info)) => seq![
            ("successful"@, "false"@), ("error"@, "BadRequest"@), ("long_error"@, info@)],
        Some(PushError::Other(d)) => seq![("successful"@, "false"@), ("error"@, d@)],
        None => seq![("successful"@, "true"@)],
    };
    base + service + outcome
}

/// Sends records to GELF when connected (`G`), else prints them to the console.
pub struct GelfLogger<G> {
    pub connection: Option<G>,
    pub filter: LevelFilter,
}

impl<G> GelfLogger<G> {
    /// A logger over `connection` that prints at `filter` when unconnected.
    pub fn new(connection: Option<G>, filter: LevelFilter) -> (r: GelfLogger<G>)
        ensures
            r.connection == connection,
            r.filter == filter,
    {
        GelfLogger { connection, filter }
    }

    /// Where a record of `level` goes: to GELF when connected; otherwise it
    /// is printed when the threshold ranks at or below the record's console
    /// level, and skipped when not.
    pub fn log_message(&self, level: GelfLevel, short_message: &str, metadata: &Vec<(String, String)>) -> (r: LogRoute)
        ensures
            self.connection is Some ==> r == LogRoute::Gelf,
            self.connection is None && rank(self.filter) <= rank(console_level_spec(level)) ==>
                (r matches LogRoute::Print(line) && line@ == console_line(console_level_spec(level), short_message@, pairs_view(metadata@))),
            self.connection is None && rank(self.filter) > rank(console_level_spec(level)) ==> r == LogRoute::Skip,
    {
        if self.connection.is_some() {
            return LogRoute::Gelf;
        }
        let console = level.console_level();
        if self.filter.rank_of() <= console.rank_of() {
            let mut line = String::from_str("[");
            line.append(console.name());
            line.append("] ");
            line.append(short_message);
            line.append(": (");
            let ghost ms = pairs_view(metadata@);
            let ghost start = line@;
            let mut i: usize = 0;
            assert(ms.take(0) =~= Seq::<(Seq<char>, Seq<char>)>::empty());
            while i < metadata.len()
                invariant
                    i <= metadata@.len(),
                    ms == pairs_view(metadata@),
                    line@ == start + metadata_text(ms.take(i as int)),
                decreases metadata@.len() - i,
            {
                assert(ms.take(i + 1).drop_last() =~= ms.take(i as int));
                if i > 0 {
                    line.append(", ");
                }
                line.append(metadata[i].0.as_str());
                line.append(": ");
                line.append(metadata[i].1.as_str());
                proof {
                    if i == 0 {
                        assert(ms.take(1)[0] == ms[0]);
                    }
                    assert(line@ =~= start + metadata_text(ms.take(i + 1)));
                }
                i = i + 1;
            }
            assert(ms.take(metadata@.len() as int) =~= ms);
            line.append(")");
            assert(line@ =~= console_line(console, short_message@, ms));
            LogRoute::Print(line)
        } else {
            LogRoute::Skip
        }
    }

    /// Logs the result of a push for `event`, failed with `error` or
    /// successful, as an informational record titled `title`; says where
    /// the record goes.
    pub fn log_push_result(&self, title: &str, event: &PushNotification, error: Option<PushError>) -> (r: LogRoute)
        ensures
            self.connection is Some ==> r == LogRoute::Gelf,
            self.connection is None && rank(self.filter) <= rank(LevelFilter::Info) ==>
                (r matches LogRoute::Print(line)
                    && line@ == console_line(LevelFilter::Info, title@, push_result_fields_spec(*event, error))),
            self.connection is None && rank(self.filter) > rank(LevelFilter::Info) ==> r == LogRoute::Skip,
    {
        let fields = Self::push_result_fields(event, error);
        self.log_message(GelfLevel::Informational, title, &fields)
    }

    /// The fields of a push result record for `event`, failed with `error`
    /// or successful.
    pub fn push_result_fields(event: &PushNotification, error: Option<PushError>) -> (r: Vec<(String, String)>)
        ensures
            pairs_view(r@) == push_result_fields_spec(*event, error),
    {
        let mut r: Vec<(String, String)> = Vec::new();
        r.push((String::from_str("correlation_id"), event.correlation_id.clone()));
        r.push((String::from_str("device_token"), event.device_token.clone()));
        r.push((String::from_str("app_id"), event.application_id.clone()));
        r.push((String::from_str("campaign_id"), event.campaign_id.clone()));
        r.push((String::from_str("event_source"), event.header.source.clone()));
        let ghost base = pairs_view(r@);
        match uri_host(event.device_token.as_str()) {
            Some(h) => {
                r.push((String::from_str("push_service"), h));
            },
            None => {},
        }
        let ghost with_service = pairs_view(r@);
        match &error {
            Some(PushError::BadRequest(info)) => {
                r.push((String::from_str("successful"), String::from_str("false")));
                r.push((String::from_str("error"), String::from_str("BadRequest")));
                r.push((String::from_str("long_error"), info.clone()));
            },
            Some(PushError::Other(d)) => {
                r.push((String::from_str("successful"), String::from_str("false")));
                r.push((String::from_str("error"), d.clone()));
            },
            None => {
                r.push((String::from_str("successful"), String::from_str("true")));
            },
        }
        assert(pairs_view(r@) =~= push_result_fields_spec(*event, error));
        r
    }
}

} // verus!
