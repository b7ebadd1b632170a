//! The server's settings as given by environment variables, with their
//! defaults.
use vstd::prelude::*;

use crate::config::{address, join_address, or_default, value_or_default, ApnsEndpoint};

verus! {

pub const DEFAULT_DB_PATH: &'static str = "./apns_notifications.db";

pub const DEFAULT_HOST: &'static str = "0.0.0.0";

pub const DEFAULT_PORT: &'static str = "8000";

pub const DEFAULT_RELAY_URL: &'static str = "wss://relay.damus.io";

pub const DEFAULT_APNS_ENVIRONMENT: &'static str = "development";

/// One hour.
pub const DEFAULT_NOSTR_EVENT_CACHE_MAX_AGE: u64 = 60 * 60;

/// The environment variables that the server reads, each `None` where it
/// is unset (or not Unicode).
pub struct EnvValues {
    /// `APNS_AUTH_PRIVATE_KEY_FILE_PATH`
    pub apns_auth_private_key_file_path: Option<String>,
    /// `APNS_AUTH_PRIVATE_KEY_ID`
    pub apns_auth_private_key_id: Option<String>,
    /// `APPLE_TEAM_ID`
    pub apple_team_id: Option<String>,
    /// `DB_PATH`
    pub db_path: Option<String>,
    /// `HOST`
    pub host: Option<String>,
    /// `PORT`
    pub port: Option<String>,
    /// `RELAY_URL`
    pub relay_url: Option<String>,
    /// `APNS_ENVIRONMENT`
    pub apns_environment: Option<String>,
    /// `API_BASE_URL`
    pub api_base_url: Option<String>,
    /// `APNS_TOPIC`
    pub apns_topic: Option<String>,
    /// `NOSTR_EVENT_CACHE_MAX_AGE`
    pub nostr_event_cache_max_age: Option<String>,
    /// `GOOGLE_SERVICES_FILE_PATH`
    pub google_services_file_path: Option<String>,
    /// `VAAPI_KEY`
    pub vaapi_key: Option<String>,
}

pub struct NotePushEnv {
    /// The path to the Apple private key .p8 file
    pub apns_private_key_path: Option<String>,
    /// The Apple private key ID
    pub apns_private_key_id: Option<String>,
    /// The Apple team ID
    pub apns_team_id: Option<String>,
    /// The APNS environment to send notifications to (Sandbox or Production)
    pub apns_environment: ApnsEndpoint,
    /// The topic to send notifications to (The Apple app bundle ID)
    pub apns_topic: Option<String>,
    /// The path to the SQLite database file
    pub db_path: String,
    /// The host to bind the relay and API to
    pub host: String,
    /// The port to bind the relay and API to
    pub port: String,
    /// The base URL of where the API server is hosted, for NIP-98 auth checks
    pub api_base_url: String,
    /// The URL of the Nostr relay server to connect to for getting mutelists
    pub relay_url: String,
    /// The max age of the Nostr event cache, in seconds
    pub nostr_event_cache_max_age: u64,
    /// Path to google_services.json for FCM
    pub google_services_file_path: Option<String>,
    /// VAAPI key for WebPush (via FCM)
    pub vaapi_key: Option<String>,
}

/// Whether `c` is an ASCII decimal digit.
pub open spec fn is_decimal_digit(c: char) -> bool {
    '0' <= c && c <= '9'
}

/// The number that the decimal digits `s` spell.
pub open spec fn decimal_value(s: Seq<char>) -> nat
    decreases s.len(),
{
    if s.len() == 0 {
        0
    } else {
        decimal_value(s.drop_last()) * 10 + (s.last() as int - '0' as int) as nat
    }
}

/// The digits of a number in decimal: the text without its leading `+`.
pub open spec fn parse_digits(s: Seq<char>) -> Seq<char> {
    if s.len() > 0 && s[0] == '+' {
        s.drop_first()
    } else {
        s
    }
}

/// What `str::parse::<u64>` gives: an optional `+`, then one or more ASCII
/// digits whose value fits in a `u64`; `None` otherwise.
pub open spec fn parse_u64(s: Seq<char>) -> Option<u64> {
    let digits = parse_digits(s);
    if digits.len() == 0 || !(forall|i: int| 0 <= i < digits.len() ==> is_decimal_digit(#[trigger] digits[i]))
        || decimal_value(digits) > u64::MAX {
        None
    } else {
        Some(decimal_value(digits) as u64)
    }
}

proof fn lemma_decimal_value_prefix(s: Seq<char>, j: int)
    requires
        0 <= j <= s.len(),
        forall|i: int| 0 <= i < s.len() ==> is_decimal_digit(#[trigger] s[i]),
    ensures
        decimal_value(s.take(j)) <= decimal_value(s),
    decreases s.len() - j,
{
    if j < s.len() {
        lemma_decimal_value_prefix(s, j + 1);
        let t = s.take(j + 1);
        assert(t.drop_last() =~= s.take(j));
        assert(decimal_value(t) == decimal_value(s.take(j)) * 10 + (t.last() as int - '0' as int) as nat);
        assert(decimal_value(s.take(j)) <= decimal_value(s.take(j)) * 10) by (nonlinear_arith);
    } else {
        assert(s.take(j) =~= s);
    }
}

/// A character that is not a digit makes the text unparsable.
proof fn lemma_non_digit_refused(s: Seq<char>, k: int)
    requires
        0 <= k < parse_digits(s).len(),
        !is_decimal_digit(parse_digits(s)[k]),
    ensures
        parse_u64(s) is None,
{
}

/// A prefix of digits whose value is already too large for a `u64` makes
/// the whole text unparsable.
proof fn lemma_overflow_refused(digits: Seq<char>, j: int)
    requires
        0 <= j <= digits.len(),
        decimal_value(digits.take(j)) > u64::MAX,
    ensures
        digits.len() == 0 || !(forall|i: int| 0 <= i < digits.len() ==> is_decimal_digit(#[trigger] digits[i]))
            || decimal_value(digits) > u64::MAX,
{
    if forall|i: int| 0 <= i < digits.len() ==> is_decimal_digit(#[trigger] digits[i]) {
        lemma_decimal_value_prefix(digits, j);
    }
}

/// Parses a `u64` in decimal, as `str::parse::<u64>` does.
pub fn parse_decimal_u64(s: &str) -> (r: Option<u64>)
    ensures
        r == parse_u64(s@),
{
    let n = s.unicode_len();
    let mut start: usize = 0;
    if n > 0 && s.get_char(0) == '+' {
        start = 1;
    }
    let ghost digits = parse_digits(s@);
    assert(digits =~= s@.subrange(start as int, n as int));
    if start == n {
        return None;
    }
    let mut value: u64 = 0;
    let mut i: usize = start;
    assert(digits.take(0) =~= Seq::<char>::empty());
    while i < n
        invariant
            n == s@.len(),
            start <= i <= n,
            digits =~= s@.subrange(start as int, n as int),
            digits == parse_digits(s@),
            forall|k: int| 0 <= k < i - start ==> is_decimal_digit(#[trigger] digits[k]),
            value == decimal_value(digits.take(i - start)),
        decreases n - i,
    {
        let c = s.get_char(i);
        assert(c == digits[i - start]);
        if !('0' <= c && c <= '9') {
            assert(!is_decimal_digit(digits[i - start]));
            proof {
                lemma_non_digit_refused(s@, i - start);
            }
            return None;
        }
        let d: u64 = (c as u32 - '0' as u32) as u64;
        let ghost t = digits.take(i - start + 1);
        assert(t.drop_last() =~= digits.take(i - start));
        assert(t.last() == c);
        assert(decimal_value(t) == decimal_value(digits.take(i - start)) * 10 + d);
        let next = match value.checked_mul(10) {
            Some(v) => match v.checked_add(d) {
                Some(w) => w,
                None => {
                    proof {
                        lemma_overflow_refused(digits, i - start + 1);
                    }
                    return None;
                },
            },
            None => {
                proof {
                    lemma_overflow_refused(digits, i - start + 1);
                }
                return None;
            },
        };
        value = next;
        i = i + 1;
    }
    assert(digits.take(n - start) =~= digits);
    Some(value)
}

impl NotePushEnv {
    /// The settings that the environment variables `vars` give, with the
    /// defaults for those that are unset.
    pub fn from_env_values(vars: EnvValues) -> (r: NotePushEnv)
        ensures
            r.apns_private_key_path == vars.apns_auth_private_key_file_path,
            r.apns_private_key_id == vars.apns_auth_private_key_id,
            r.apns_team_id == vars.apple_team_id,
            r.db_path@ == or_default(vars.db_path, DEFAULT_DB_PATH@),
            r.host@ == or_default(vars.host, DEFAULT_HOST@),
            r.port@ == or_default(vars.port, DEFAULT_PORT@),
            r.relay_url@ == or_default(vars.relay_url, DEFAULT_RELAY_URL@),
            r.api_base_url@ == or_default(
                vars.api_base_url,
                "https://"@ + address(r.host@, r.port@),
            ),
            r.apns_environment == (if or_default(vars.apns_environment, DEFAULT_APNS_ENVIRONMENT@)
                == "production"@ {
                ApnsEndpoint::Production
            } else {
                ApnsEndpoint::Sandbox
            }),
            r.apns_topic == vars.apns_topic,
            r.nostr_event_cache_max_age == (match vars.nostr_event_cache_max_age {
                Some(s) => match parse_u64(s@) {
                    Some(v) => v,
                    None => DEFAULT_NOSTR_EVENT_CACHE_MAX_AGE,
                },
                None => DEFAULT_NOSTR_EVENT_CACHE_MAX_AGE,
            }),
            r.google_services_file_path == vars.google_services_file_path,
            r.vaapi_key == vars.vaapi_key,
    {
        let db_path = value_or_default(&vars.db_path, DEFAULT_DB_PATH);
        let host = value_or_default(&vars.host, DEFAULT_HOST);
        let port = value_or_default(&vars.port, DEFAULT_PORT);
        let relay_url = value_or_default(&vars.relay_url, DEFAULT_RELAY_URL);
        let apns_environment_string = value_or_default(
            &vars.apns_environment,
            DEFAULT_APNS_ENVIRONMENT,
        );
        let api_base_url = match &vars.api_base_url {
            Some(url) => url.clone(),
            None => {
                let mut url = "https://".to_owned();
                let addr = join_address(host.as_str(), port.as_str());
                url.append(addr.as_str());
                url
            },
        };
        let apns_environment = if crate::text::str_eq(
            apns_environment_string.as_str(),
            "production",
        ) {
            ApnsEndpoint::Production
        } else {
            ApnsEndpoint::Sandbox
        };
        let nostr_event_cache_max_age = match &vars.nostr_event_cache_max_age {
            Some(s) => match parse_decimal_u64(s.as_str()) {
                Some(v) => v,
                None => DEFAULT_NOSTR_EVENT_CACHE_MAX_AGE,
            },
            None => DEFAULT_NOSTR_EVENT_CACHE_MAX_AGE,
        };
        NotePushEnv {
            apns_private_key_path: vars.apns_auth_private_key_file_path,
            apns_private_key_id: vars.apns_auth_private_key_id,
            apns_team_id: vars.apple_team_id,
            apns_environment,
            apns_topic: vars.apns_topic,
            db_path,
            host,
            port,
            api_base_url,
            relay_url,
            nostr_event_cache_max_age,
            google_services_file_path: vars.google_services_file_path,
            vaapi_key: vars.vaapi_key,
        }
    }

    /// host:port to bind
    pub fn relay_address(&self) -> (r: String)
        ensures
            r@ == address(self.host@, self.port@),
    {
        join_address(self.host.as_str(), self.port.as_str())
    }
}

} // verus!
