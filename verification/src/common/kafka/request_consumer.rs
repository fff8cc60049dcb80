//! Routing of the messages that the request consumer reads: which configuration
//! messages concern an application, which application, and what an RPC
//! request asks for.
use vstd::prelude::*;
use crate::common::kafka::Config;
use crate::common::text::{str_eq, utf8_decode};
use vstd::utf8::{valid_utf8, decode_utf8};

verus! {

/// Pattern of the keys of application configuration messages.
pub const APP_KEY_PATTERN: &'static str =
    "application|([A-Z0-9]{8}-[A-Z0-9]{4}-[A-Z0-9]{4}-[A-Z0-9]{4}-[A-Z0-9]{12})";

/// Whether `c` may stand in an application id: an ASCII capital letter or a
/// decimal digit.
pub open spec fn is_id_char(c: char) -> bool {
    ('A' <= c && c <= 'Z') || ('0' <= c && c <= '9')
}

/// Whether `t` is an id of the form `XXXXXXXX-XXXX-XXXX-XXXX-XXXXXXXXXXXX`.
pub open spec fn is_id(t: Seq<char>) -> bool {
    &&& t.len() == 36
    &&& forall|j: int| 0 <= j < 36 ==> if j == 8 || j == 13 || j == 18 || j == 23 {
        #[trigger] t[j] == '-'
    } else {
        is_id_char(t[j])
    }
}

/// Whether the word `application` starts at `i` in `s`.
pub open spec fn application_at(s: Seq<char>, i: int) -> bool {
    0 <= i && i + 11 <= s.len() && s.subrange(i, i + 11) == "application"@
}

/// Whether an id starts at `i` in `s`.
pub open spec fn id_at(s: Seq<char>, i: int) -> bool {
    0 <= i && i + 36 <= s.len() && is_id(s.subrange(i, i + 36))
}

/// Whether `APP_KEY_PATTERN` matches somewhere in `s`: the pattern is the
/// alternative of the word `application` and of an id, and a match may
/// start anywhere.
pub open spec fn matches_app_key(s: Seq<char>) -> bool {
    (exists|i: int| #[trigger] application_at(s, i)) || (exists|i: int| #[trigger] id_at(s, i))
}

/// Compiles `pattern` with `regex::Regex::new` and asks
/// `Regex::is_match(text)`, which is true when the pattern matches anywhere
/// in `text`. Only `APP_KEY_PATTERN` is admitted: it is valid, so it always
/// compiles, and by the regex syntax (alternation, ASCII classes, exact
/// repetition) a match is what `matches_app_key` describes.
#[verifier::external_body]
fn regex_is_match(pattern: &str, text: &str) -> (r: bool)
    requires
        pattern@ == APP_KEY_PATTERN@,
    ensures
        r == matches_app_key(text@),
{
    match regex::Regex::new(pattern) {
        Ok(re) => re.is_match(text),
        Err(_) => false,
    }
}

/// Index of the first `|` in `s`, or its length when there is none.
pub open spec fn bar_index(s: Seq<char>) -> nat
    decreases s.len(),
{
    if s.len() == 0 {
        0
    } else if s[0] == '|' {
        0
    } else {
        1 + bar_index(s.drop_first())
    }
}

/// The application id in a configuration key: the second `|`-separated field,
/// or the whole key when it has no `|`.
pub open spec fn application_id_of_key(key: Seq<char>) -> Seq<char> {
    let i = bar_index(key);
    if i == key.len() {
        key
    } else {
        let rest = key.subrange(i + 1 as int, key.len() as int);
        rest.subrange(0, bar_index(rest) as int)
    }
}

proof fn lemma_bar_index(s: Seq<char>, i: int)
    requires
        0 <= i <= s.len(),
        forall|j: int| 0 <= j < i ==> s[j] != '|',
        i == s.len() || s[i] == '|',
    ensures
        bar_index(s) == i,
    decreases i,
{
    if i > 0 {
        let t = s.drop_first();
        assert forall|j: int| 0 <= j < i - 1 implies t[j] != '|' by {
            assert(t[j] == s[j + 1]);
        }
        if i < s.len() {
            assert(t[i - 1] == s[i]);
        }
        lemma_bar_index(t, i - 1);
    }
}

/// A configuration key made of a prefix, `|` and an id, neither of which
/// holds a `|` (such as `application|<id>`), names that id; a key without
/// any `|` names itself.
pub proof fn key_names_its_application(prefix: Seq<char>, id: Seq<char>)
    requires
        !prefix.contains('|'),
        !id.contains('|'),
    ensures
        application_id_of_key(prefix + seq!['|'] + id) == id,
        application_id_of_key(id) == id,
{
    let key = prefix + seq!['|'] + id;
    assert forall|j: int| 0 <= j < prefix.len() implies key[j] != '|' by {
        assert(key[j] == prefix[j]);
        if key[j] == '|' {
            assert(prefix.contains('|'));
        }
    }
    assert(key[prefix.len() as int] == '|');
    lemma_bar_index(key, prefix.len() as int);
    let rest = key.subrange(prefix.len() as int + 1, key.len() as int);
    assert(rest =~= id);
    assert forall|j: int| 0 <= j < id.len() implies id[j] != '|' by {
        if id[j] == '|' {
            assert(id.contains('|'));
        }
    }
    lemma_bar_index(id, id.len() as int);
    assert(id.subrange(0, id.len() as int) =~= id);
}

/// First index at or after `from` that holds `|`, or the length.
fn find_bar(s: &str, from: usize) -> (r: usize)
    requires
        from <= s@.len(),
    ensures
        from <= r <= s@.len(),
        r - from == bar_index(s@.subrange(from as int, s@.len() as int)),
{
    let n = s.unicode_len();
    let mut i = from;
    while i < n
        invariant
            n == s@.len(),
            from <= i <= n,
            forall|j: int| from <= j < i ==> s@[j] != '|',
        ensures
            from <= i <= n,
            forall|j: int| from <= j < i ==> s@[j] != '|',
            i == n || s@[i as int] == '|',
        decreases n - i,
    {
        if s.get_char(i) == '|' {
            break;
        }
        i = i + 1;
    }
    proof {
        let t = s@.subrange(from as int, s@.len() as int);
        assert forall|j: int| 0 <= j < i - from implies t[j] != '|' by {
            assert(t[j] == s@[from + j]);
        }
        if i < n {
            assert(t[i - from] == s@[i as int]);
        }
        lemma_bar_index(t, i - from);
    }
    i
}

/// The application id in a configuration key, as the consumer splits it.
pub fn application_id(key: &str) -> (r: String)
    ensures
        r@ == application_id_of_key(key@),
{
    let n = key.unicode_len();
    let i = find_bar(key, 0);
    assert(key@.subrange(0, key@.len() as int) =~= key@);
    if i == n {
        String::from_str(key)
    } else {
        let j = find_bar(key, i + 1);
        let part = key.substring_char(i + 1, j);
        proof {
            let rest = key@.subrange(i + 1, key@.len() as int);
            assert(rest.subrange(0, (j - (i + 1)) as int) =~= key@.subrange(i + 1, j as int));
        }
        String::from_str(part)
    }
}

/// Whether a configuration key names an application configuration.
pub fn is_application_key(key: &str) -> (r: bool)
    ensures
        r == matches_app_key(key@),
{
    regex_is_match(APP_KEY_PATTERN, key)
}

/// What to do with a message of the configuration topic.
#[derive(Debug, Clone, PartialEq, Eq)]
pub enum ConfigRoute {
    /// Not an application configuration.
    Ignore,
    /// An RPC message of another type.
    InvalidType,
    /// Parse the payload as an `Application` and hand it over for this id.
    Configure(String),
    /// The payload is no RPC message: hand over "no configuration" for this id.
    Remove(String),
}


/// Whether `r` is the route of a configuration message with key `key`
/// (`None` when absent or not UTF-8), whether that key matched the pattern,
/// and the RPC type of its payload (`None` when the payload is no RPC message).
pub open spec fn is_config_route(
    key: Option<Seq<char>>,
    key_matches: bool,
    rpc_type: Option<Seq<char>>,
    r: ConfigRoute,
) -> bool {
    match key {
        None => r == ConfigRoute::Ignore,
        Some(k) => if !key_matches {
            r == ConfigRoute::Ignore
        } else {
            match rpc_type {
                Some(t) => if t == "application.Application"@ {
                    r matches ConfigRoute::Configure(id) && id@ == application_id_of_key(k)
                } else {
                    r == ConfigRoute::InvalidType
                },
                None => r matches ConfigRoute::Remove(id) && id@ == application_id_of_key(k),
            }
        },
    }
}

/// Routes a configuration message, given whether its key matched the pattern.
pub fn config_route(key: Option<&str>, key_matches: bool, rpc_type: Option<&str>) -> (r: ConfigRoute)
    ensures
        is_config_route(
            match key { Some(k) => Some(k@), None => None },
            key_matches,
            match rpc_type { Some(t) => Some(t@), None => None },
            r,
        ),
{
    match key {
        None => ConfigRoute::Ignore,
        Some(k) => {
            if !key_matches {
                ConfigRoute::Ignore
            } else {
                match rpc_type {
                    Some(t) => {
                        if str_eq(t, "application.Application") {
                            ConfigRoute::Configure(application_id(k))
                        } else {
                            ConfigRoute::InvalidType
                        }
                    },
                    None => ConfigRoute::Remove(application_id(k)),
                }
            }
        },
    }
}

/// Routes a message of the configuration topic from its raw key and the RPC
/// type of its payload: decodes the key and matches it against `APP_KEY_PATTERN`.
pub fn route_config_message(key: Option<&[u8]>, rpc_type: Option<&str>) -> (r: ConfigRoute)
    ensures
        match key {
            Some(b) => if valid_utf8(b@) {
                is_config_route(
                    Some(decode_utf8(b@)),
                    matches_app_key(decode_utf8(b@)),
                    match rpc_type { Some(t) => Some(t@), None => None },
                    r,
                )
            } else {
                r == ConfigRoute::Ignore
            },
            None => r == ConfigRoute::Ignore,
        },
{
    match key {
        None => ConfigRoute::Ignore,
        Some(b) => match utf8_decode(b) {
            None => ConfigRoute::Ignore,
            Some(k) => {
                let matches = is_application_key(k.as_str());
                config_route(Some(k.as_str()), matches, rpc_type)
            },
        },
    }
}

/// What an RPC request on the input topic asks for.
#[derive(Debug, Clone, Copy, PartialEq, Eq, Structural)]
pub enum RequestRoute {
    /// A `notification.PushNotification`.
    Push,
    /// An `http.HttpRequest`.
    Http,
    /// An RPC message of another type.
    InvalidType,
    /// The payload is no RPC message.
    InvalidRpc,
}

/// The route of an RPC request with the given type (`None`: no RPC message).
pub open spec fn request_route_spec(rpc_type: Option<Seq<char>>) -> RequestRoute {
    match rpc_type {
        None => RequestRoute::InvalidRpc,
        Some(t) => if t == "notification.PushNotification"@ {
            RequestRoute::Push
        } else if t == "http.HttpRequest"@ {
            RequestRoute::Http
        } else {
            RequestRoute::InvalidType
        },
    }
}

/// Routes an RPC request by the type in its header.
pub fn request_route(rpc_type: Option<&str>) -> (r: RequestRoute)
    ensures
        r == request_route_spec(match rpc_type { Some(t) => Some(t@), None => None }),
{
    match rpc_type {
        None => RequestRoute::InvalidRpc,
        Some(t) => {
            if str_eq(t, "notification.PushNotification") {
                RequestRoute::Push
            } else if str_eq(t, "http.HttpRequest") {
                RequestRoute::Http
            } else {
                RequestRoute::InvalidType
            }
        },
    }
}

/// Number of partitions of the configuration topic.
pub const CONFIG_PARTITIONS: i32 = 12;

/// The consumer that reads requests and tenant configuration. The handler `H`
/// holds the service's business logic.
pub struct RequestConsumer<H> {
    pub config_topic: String,
    pub input_topic: String,
    pub group_id: String,
    pub brokers: String,
    pub handler: H,
}

/// The client settings of a consumer: group, brokers, and whether it commits
/// automatically and where it starts without a stored offset.
pub open spec fn consumer_settings_spec(config: Config, auto_commit: Seq<char>, offset_reset: Seq<char>) -> Seq<(Seq<char>, Seq<char>)> {
    seq![
        ("group.id"@, config.group_id@),
        ("bootstrap.servers"@, config.brokers@),
        ("enable.auto.commit"@, auto_commit),
        ("auto.offset.reset"@, offset_reset),
        ("enable.partition.eof"@, "false"@),
    ]
}

/// The settings as a sequence of views.
pub open spec fn settings_view(v: Seq<(String, String)>) -> Seq<(Seq<char>, Seq<char>)> {
    v.map_values(|p: (String, String)| (p.0@, p.1@))
}

fn consumer_settings(config: &Config, auto_commit: &str, offset_reset: &str) -> (r: Vec<(String, String)>)
    ensures
        settings_view(r@) == consumer_settings_spec(*config, auto_commit@, offset_reset@),
{
    let mut r: Vec<(String, String)> = Vec::new();
    r.push((String::from_str("group.id"), config.group_id.clone()));
    r.push((String::from_str("bootstrap.servers"), config.brokers.clone()));
    r.push((String::from_str("enable.auto.commit"), String::from_str(auto_commit)));
    r.push((String::from_str("auto.offset.reset"), String::from_str(offset_reset)));
    r.push((String::from_str("enable.partition.eof"), String::from_str("false")));
    assert(settings_view(r@) =~= consumer_settings_spec(*config, auto_commit@, offset_reset@));
    r
}

impl<H> RequestConsumer<H> {
    /// A kafka consumer to consume push notification events. `handler`
    /// should contain the business logic.
    pub fn new(handler: H, config: &Config) -> (r: RequestConsumer<H>)
        ensures
            r.config_topic@ == config.config_topic@,
            r.input_topic@ == config.input_topic@,
            r.group_id@ == config.group_id@,
            r.brokers@ == config.brokers@,
            r.handler == handler,
    {
        RequestConsumer {
            config_topic: config.config_topic.clone(),
            input_topic: config.input_topic.clone(),
            group_id: config.group_id.clone(),
            brokers: config.brokers.clone(),
            handler,
        }
    }

    /// Settings of the configuration consumer: manual commits, from the earliest offset.
    pub fn config_consumer_settings(&self) -> (r: Vec<(String, String)>)
        ensures
            settings_view(r@) == seq![
                ("group.id"@, self.group_id@),
                ("bootstrap.servers"@, self.brokers@),
                ("enable.auto.commit"@, "false"@),
                ("auto.offset.reset"@, "earliest"@),
                ("enable.partition.eof"@, "false"@),
            ],
    {
        let config = self.as_config();
        consumer_settings(&config, "false", "earliest")
    }

    /// Settings of the request consumer: automatic commits, from the latest offset.
    pub fn request_consumer_settings(&self) -> (r: Vec<(String, String)>)
        ensures
            settings_view(r@) == seq![
                ("group.id"@, self.group_id@),
                ("bootstrap.servers"@, self.brokers@),
                ("enable.auto.commit"@, "true"@),
                ("auto.offset.reset"@, "latest"@),
                ("enable.partition.eof"@, "false"@),
            ],
    {
        let config = self.as_config();
        consumer_settings(&config, "true", "latest")
    }

    fn as_config(&self) -> (r: Config)
        ensures
            r.group_id@ == self.group_id@,
            r.brokers@ == self.brokers@,
    {
        Config {
            input_topic: self.input_topic.clone(),
            config_topic: self.config_topic.clone(),
            output_topic: String::new(),
            group_id: self.group_id.clone(),
            brokers: self.brokers.clone(),
        }
    }

    /// The partitions of the configuration topic to read, all from the beginning.
    pub fn config_partitions(&self) -> (r: Vec<i32>)
        ensures
            r@.len() == CONFIG_PARTITIONS,
            forall|i: int| 0 <= i < r@.len() ==> r@[i] == i,
    {
        let mut r: Vec<i32> = Vec::new();
        let mut p: i32 = 0;
        while p < CONFIG_PARTITIONS
            invariant
                0 <= p <= CONFIG_PARTITIONS,
                r@.len() == p,
                forall|i: int| 0 <= i < r@.len() ==> r@[i] == i,
            decreases CONFIG_PARTITIONS - p,
        {
            r.push(p);
            p = p + 1;
        }
        r
    }
}

/// Push notifications and HTTP requests are routed by the type their header
/// names, exactly; any other type is invalid, and a payload that is no RPC
/// message is reported as such.
pub proof fn requests_are_routed_by_type(rpc_type: Option<Seq<char>>)
    ensures
        (request_route_spec(rpc_type) == RequestRoute::Push) <==> rpc_type == Some("notification.PushNotification"@),
        (request_route_spec(rpc_type) == RequestRoute::Http) <==> rpc_type == Some("http.HttpRequest"@),
        (request_route_spec(rpc_type) == RequestRoute::InvalidRpc) <==> rpc_type is None,
{
    assert("notification.PushNotification"@ != "http.HttpRequest"@) by {
        reveal_strlit("notification.PushNotification");
        reveal_strlit("http.HttpRequest");
        assert("notification.PushNotification"@.len() != "http.HttpRequest"@.len());
    }
}

} // verus!
