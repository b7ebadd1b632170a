//! The server's configuration as read from `config.yaml` and the
//! environment, and the values it derives from it.
use vstd::prelude::*;

verus! {

pub const DEFAULT_DB_PATH: &'static str = "./notifications.db";

pub const DEFAULT_HOST: &'static str = "0.0.0.0";

pub const DEFAULT_PORT: &'static str = "8000";

pub const DEFAULT_RELAY_URL: &'static str = "wss://relay.damus.io";

/// One hour.
pub const DEFAULT_NOSTR_EVENT_CACHE_MAX_AGE: u64 = 60 * 60;

/// The APNs environment that notifications are sent to.
#[derive(PartialEq, Eq, Structural, Clone, Copy, Debug)]
pub enum ApnsEndpoint {
    Production,
    Sandbox,
}

/// `c` with an ASCII capital letter turned to lower case.
pub open spec fn ascii_lower(c: char) -> char {
    if 'A' <= c && c <= 'Z' {
        ((c as u32) + 32) as char
    } else {
        c
    }
}

/// `s` with its ASCII capital letters turned to lower case, as
/// `str::to_ascii_lowercase` does.
pub open spec fn to_ascii_lowercase(s: Seq<char>) -> Seq<char> {
    s.map_values(|c: char| ascii_lower(c))
}

/// Whether `s`, with its ASCII letters in lower case, is `lower`.
pub fn ascii_lowercase_is(s: &str, lower: &str) -> (r: bool)
    ensures
        r == (to_ascii_lowercase(s@) == lower@),
{
    let n = s.unicode_len();
    if n != lower.unicode_len() {
        proof {
            assert(to_ascii_lowercase(s@).len() == s@.len());
        }
        return false;
    }
    let mut i: usize = 0;
    while i < n
        invariant
            n == s@.len(),
            n == lower@.len(),
            i <= n,
            forall|k: int| 0 <= k < i ==> ascii_lower(#[trigger] s@[k]) == lower@[k],
        decreases n - i,
    {
        let c = s.get_char(i);
        let l: char = if 'A' <= c && c <= 'Z' {
            ((c as u8) + 32) as char
        } else {
            c
        };
        assert(l == ascii_lower(c));
        if l != lower.get_char(i) {
            assert(to_ascii_lowercase(s@)[i as int] != lower@[i as int]);
            return false;
        }
        i = i + 1;
    }
    assert(to_ascii_lowercase(s@) =~= lower@);
    true
}

/// What an optional setting gives, `default` when it is absent.
pub open spec fn or_default(value: Option<String>, default: Seq<char>) -> Seq<char> {
    match value {
        Some(v) => v@,
        None => default,
    }
}

/// The value of an optional setting, or `default` when it is absent.
pub fn value_or_default(value: &Option<String>, default: &str) -> (r: String)
    ensures
        r@ == or_default(*value, default@),
{
    match value {
        Some(v) => v.clone(),
        None => default.to_owned(),
    }
}

/// `host`, a colon and `port`: the address to bind.
pub open spec fn address(host: Seq<char>, port: Seq<char>) -> Seq<char> {
    host + ":"@ + port
}

/// Joins a host and a port with a colon.
pub fn join_address(host: &str, port: &str) -> (r: String)
    ensures
        r@ == address(host@, port@),
{
    let mut r = host.to_owned();
    r.append(":");
    r.append(port);
    r
}

#[derive(Clone)]
pub struct ApnsConfig {
    /// The path to the Apple private key .p8 file
    pub key_path: String,
    /// The Apple private key ID
    pub key_id: String,
    /// The Apple team ID
    pub team_id: String,
    /// The APNS environment to send notifications to (Sandbox or Production)
    pub environment: String,
    /// The topic to send notifications to (The Apple app bundle ID)
    pub topic: String,
}

impl ApnsConfig {
    /// The APNs environment: production when `environment` is
    /// `production` in any ASCII case, the sandbox otherwise.
    pub fn endpoint(&self) -> (r: ApnsEndpoint)
        ensures
            r == (if to_ascii_lowercase(self.environment@) == "production"@ {
                ApnsEndpoint::Production
            } else {
                ApnsEndpoint::Sandbox
            }),
    {
        if ascii_lowercase_is(self.environment.as_str(), "production") {
            ApnsEndpoint::Production
        } else {
            ApnsEndpoint::Sandbox
        }
    }
}

#[derive(Clone)]
pub struct FcmConfig {
    /// Path to google_services.json for FCM
    pub google_services_file_path: String,
    /// VAAPI public key for WebPush (via FCM)
    pub vaapi_key: Option<String>,
}

#[derive(Clone)]
pub struct NotePushConfig {
    /// Config for APNs messaging
    pub apns: Option<ApnsConfig>,
    /// Config for FCM messaging
    pub fcm: Option<FcmConfig>,
    /// Database path
    pub db_path: Option<String>,
    /// Host to bind http server
    pub host: Option<String>,
    /// Port to bind http server
    pub port: Option<String>,
    /// Public http URL: the base URL of where the API server is hosted, for
    /// NIP-98 auth checks
    pub api_base_url: String,
    /// The URL of the Nostr relay server to connect to for getting mutelists
    pub relay_url: Option<String>,
    /// The max age of the Nostr event cache, in seconds
    pub nostr_event_cache_max_age: Option<u64>,
    /// Relays to pull events from
    pub pull_relays: Vec<String>,
}

impl NotePushConfig {
    /// The host to bind: the configured one, or `0.0.0.0`.
    pub fn host(&self) -> (r: String)
        ensures
            r@ == or_default(self.host, DEFAULT_HOST@),
    {
        value_or_default(&self.host, DEFAULT_HOST)
    }

    /// The port to bind: the configured one, or `8000`.
    pub fn port(&self) -> (r: String)
        ensures
            r@ == or_default(self.port, DEFAULT_PORT@),
    {
        value_or_default(&self.port, DEFAULT_PORT)
    }

    /// host:port to bind
    pub fn relay_address(&self) -> (r: String)
        ensures
            r@ == address(or_default(self.host, DEFAULT_HOST@), or_default(self.port, DEFAULT_PORT@)),
    {
        let host = self.host();
        let port = self.port();
        join_address(host.as_str(), port.as_str())
    }
}

} // verus!
