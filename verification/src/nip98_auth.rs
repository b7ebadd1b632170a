//! NIP-98 HTTP authentication: checking the `Authorization: Nostr <base64>`
//! header of a request against the request's URL, method and body.
use vstd::prelude::*;

use crate::codec::{
    base64_standard_decode, decode_base64, decode_hex, hex_decode, json_is_valid, parse_json, sha256,
    sha256_digest, sha256_from_slice,
};
use crate::nostr_event::{
    current_unix_time, event_from_json, event_id_and_signature_valid, find_tag_content,
    event_from_json_value, tag_content, verify_event, EventView, NostrEvent,
};
use crate::text::{bytes_eq, split_whitespace, str_eq, ws_words};

verus! {

/// The event kind of a NIP-98 HTTP authorization note.
pub const HTTP_AUTH_KIND: u16 = 27235;

/// How far ahead of the server's clock an authorization note may be dated.
pub const MAX_FUTURE_SKEW_SECONDS: u64 = 30;

/// How old an authorization note may be.
pub const MAX_AGE_SECONDS: u64 = 60;

/// The reasons a NIP-98 authorization header is refused, in the order in
/// which they are checked.
#[derive(PartialEq, Eq, Structural, Clone, Copy, Debug)]
pub enum Nip98Failure {
    HeaderMissing,
    NotTwoParts,
    NotNostrScheme,
    EmptyNote,
    NotBase64,
    NotJson,
    NotNostrEvent,
    WrongKind,
    MissingUrlTag,
    MissingMethodTag,
    UrlOrMethodMismatch,
    TimestampOutOfRange,
    MissingPayloadTag,
    PayloadNotHex,
    PayloadNotSha256,
    PayloadHashMismatch,
    UnexpectedPayloadTag,
    InvalidSignature,
}

/// The message that the server reports for each refusal.
pub open spec fn failure_message(f: Nip98Failure) -> Seq<char> {
    match f {
        Nip98Failure::HeaderMissing => "Nostr authorization header missing"@,
        Nip98Failure::NotTwoParts => "Nostr authorization header does not have 2 parts"@,
        Nip98Failure::NotNostrScheme => "Nostr authorization header does not start with `Nostr`"@,
        Nip98Failure::EmptyNote => "Nostr authorization header does not have a base64 encoded note"@,
        Nip98Failure::NotBase64 => "Failed to decode base64 encoded note from Nostr authorization header"@,
        Nip98Failure::NotJson => "Could not parse JSON note from authorization header"@,
        Nip98Failure::NotNostrEvent => "Could not parse Nostr note from JSON"@,
        Nip98Failure::WrongKind => "Nostr note kind in authorization header is incorrect"@,
        Nip98Failure::MissingUrlTag => "Missing 'u' tag from Nostr authorization header"@,
        Nip98Failure::MissingMethodTag => "Missing 'method' tag from Nostr authorization header"@,
        Nip98Failure::UrlOrMethodMismatch => "Auth note url and/or method does not match request"@,
        Nip98Failure::TimestampOutOfRange => "Auth timestamp is out of range"@,
        Nip98Failure::MissingPayloadTag => "Missing 'payload' tag from Nostr authorization header"@,
        Nip98Failure::PayloadNotHex => "Failed to decode hex encoded payload from Nostr authorization header"@,
        Nip98Failure::PayloadNotSha256 => "Failed to convert hex encoded payload to Sha256Hash"@,
        Nip98Failure::PayloadHashMismatch => "Auth note payload hash does not match request body hash"@,
        Nip98Failure::UnexpectedPayloadTag => "Auth note has payload tag but request has no body"@,
        Nip98Failure::InvalidSignature => "Auth note id or signature is invalid"@,
    }
}

impl Nip98Failure {
    /// The message that the server reports for this refusal.
    pub fn message(&self) -> (r: &'static str)
        ensures
            r@ == failure_message(*self),
    {
        match self {
            Nip98Failure::HeaderMissing => "Nostr authorization header missing",
            Nip98Failure::NotTwoParts => "Nostr authorization header does not have 2 parts",
            Nip98Failure::NotNostrScheme => "Nostr authorization header does not start with `Nostr`",
            Nip98Failure::EmptyNote => "Nostr authorization header does not have a base64 encoded note",
            Nip98Failure::NotBase64 => "Failed to decode base64 encoded note from Nostr authorization header",
            Nip98Failure::NotJson => "Could not parse JSON note from authorization header",
            Nip98Failure::NotNostrEvent => "Could not parse Nostr note from JSON",
            Nip98Failure::WrongKind => "Nostr note kind in authorization header is incorrect",
            Nip98Failure::MissingUrlTag => "Missing 'u' tag from Nostr authorization header",
            Nip98Failure::MissingMethodTag => "Missing 'method' tag from Nostr authorization header",
            Nip98Failure::UrlOrMethodMismatch => "Auth note url and/or method does not match request",
            Nip98Failure::TimestampOutOfRange => "Auth timestamp is out of range",
            Nip98Failure::MissingPayloadTag => "Missing 'payload' tag from Nostr authorization header",
            Nip98Failure::PayloadNotHex => "Failed to decode hex encoded payload from Nostr authorization header",
            Nip98Failure::PayloadNotSha256 => "Failed to convert hex encoded payload to Sha256Hash",
            Nip98Failure::PayloadHashMismatch => "Auth note payload hash does not match request body hash",
            Nip98Failure::UnexpectedPayloadTag => "Auth note has payload tag but request has no body",
            Nip98Failure::InvalidSignature => "Auth note id or signature is invalid",
        }
    }
}

/// Whether a note created at `created_at` is acceptable at time `now`: at
/// most 30 seconds in the future and at most 60 seconds in the past.
pub open spec fn timestamp_in_range(now: u64, created_at: u64) -> bool {
    &&& created_at <= now + MAX_FUTURE_SKEW_SECONDS
    &&& now <= created_at + MAX_AGE_SECONDS
}

/// The checks on the id and signature, which come last.
pub open spec fn signature_outcome(ev: EventView) -> Result<EventView, Nip98Failure> {
    if event_id_and_signature_valid(ev) {
        Ok(ev)
    } else {
        Err(Nip98Failure::InvalidSignature)
    }
}

/// The checks on the request body against the note's `payload` tag.
pub open spec fn payload_outcome(ev: EventView, body: Option<Seq<u8>>) -> Result<
    EventView,
    Nip98Failure,
> {
    match body {
        Some(data) => match tag_content(ev.tags, "payload"@) {
            None => Err(Nip98Failure::MissingPayloadTag),
            Some(p) => match hex_decode(p) {
                None => Err(Nip98Failure::PayloadNotHex),
                Some(h) => if h.len() != 32 {
                    Err(Nip98Failure::PayloadNotSha256)
                } else if h != sha256(data) {
                    Err(Nip98Failure::PayloadHashMismatch)
                } else {
                    signature_outcome(ev)
                },
            },
        },
        None => if tag_content(ev.tags, "payload"@) is Some {
            Err(Nip98Failure::UnexpectedPayloadTag)
        } else {
            signature_outcome(ev)
        },
    }
}

/// The checks on a parsed note against the request.
pub open spec fn note_outcome(
    ev: EventView,
    url: Seq<char>,
    method: Seq<char>,
    body: Option<Seq<u8>>,
    now: u64,
) -> Result<EventView, Nip98Failure> {
    if ev.kind != HTTP_AUTH_KIND {
        Err(Nip98Failure::WrongKind)
    } else {
        match tag_content(ev.tags, "u"@) {
            None => Err(Nip98Failure::MissingUrlTag),
            Some(authorized_url) => match tag_content(ev.tags, "method"@) {
                None => Err(Nip98Failure::MissingMethodTag),
                Some(authorized_method) => if authorized_url != url || authorized_method
                    != method {
                    Err(Nip98Failure::UrlOrMethodMismatch)
                } else if !timestamp_in_range(now, ev.created_at) {
                    Err(Nip98Failure::TimestampOutOfRange)
                } else {
                    payload_outcome(ev, body)
                },
            },
        }
    }
}

/// What the NIP-98 check gives for an `Authorization` header value, the
/// full URL and the method of the request, its body (`None` when empty)
/// and the current Unix time: the authorizing note, or the first check
/// that fails.
pub open spec fn nip98_outcome(
    header: Seq<char>,
    url: Seq<char>,
    method: Seq<char>,
    body: Option<Seq<u8>>,
    now: u64,
) -> Result<EventView, Nip98Failure> {
    let parts = ws_words(header);
    if header.len() == 0 {
        Err(Nip98Failure::HeaderMissing)
    } else if parts.len() != 2 {
        Err(Nip98Failure::NotTwoParts)
    } else if parts[0] != "Nostr"@ {
        Err(Nip98Failure::NotNostrScheme)
    } else if parts[1].len() == 0 {
        Err(Nip98Failure::EmptyNote)
    } else {
        match base64_standard_decode(vstd::utf8::encode_utf8(parts[1])) {
            None => Err(Nip98Failure::NotBase64),
            Some(json) => if !json_is_valid(json) {
                Err(Nip98Failure::NotJson)
            } else {
                match event_from_json(json) {
                    None => Err(Nip98Failure::NotNostrEvent),
                    Some(ev) => note_outcome(ev, url, method, body, now),
                }
            },
        }
    }
}

/// The body as the checks see it.
pub open spec fn body_view(body: Option<Vec<u8>>) -> Option<Seq<u8>> {
    match body {
        Some(b) => Some(b@),
        None => None,
    }
}

/// Whether `r` is what `nip98_outcome` gives, the note by its values and a
/// refusal by its message.
pub open spec fn matches_outcome(
    r: Result<NostrEvent, &'static str>,
    outcome: Result<EventView, Nip98Failure>,
) -> bool {
    match r {
        Ok(ev) => outcome == Ok::<EventView, Nip98Failure>(ev@),
        Err(m) => outcome is Err && m@ == failure_message(outcome->Err_0),
    }
}

/// The checks on the request body against the note's `payload` tag.
pub fn check_payload(ev: &NostrEvent, body: &Option<Vec<u8>>) -> (r: Result<(), Nip98Failure>)
    ensures
        match r {
            Ok(()) => payload_outcome(ev@, body_view(*body)) == signature_outcome(ev@),
            Err(f) => payload_outcome(ev@, body_view(*body)) == Err::<EventView, Nip98Failure>(f),
        },
{
    match body {
        Some(body_data) => {
            let payload = match find_tag_content(ev, "payload") {
                Some(p) => p,
                None => return Err(Nip98Failure::MissingPayloadTag),
            };
            let authorized_bytes = match decode_hex(payload.as_str()) {
                Some(b) => b,
                None => return Err(Nip98Failure::PayloadNotHex),
            };
            let authorized_hash = match sha256_from_slice(authorized_bytes.as_slice()) {
                Some(h) => h,
                None => return Err(Nip98Failure::PayloadNotSha256),
            };
            let body_hash = sha256_digest(body_data.as_slice());
            if !bytes_eq(authorized_hash.as_slice(), body_hash.as_slice()) {
                return Err(Nip98Failure::PayloadHashMismatch);
            }
            Ok(())
        },
        None => {
            if find_tag_content(ev, "payload").is_some() {
                return Err(Nip98Failure::UnexpectedPayloadTag);
            }
            Ok(())
        },
    }
}

/// The checks on a parsed note against the request, at time `now`.
pub fn check_note(ev: &NostrEvent, url: &str, method: &str, body: &Option<Vec<u8>>, now: u64) -> (r:
    Result<(), Nip98Failure>)
    ensures
        match r {
            Ok(()) => note_outcome(ev@, url@, method@, body_view(*body), now) == Ok::<
                EventView,
                Nip98Failure,
            >(ev@),
            Err(f) => note_outcome(ev@, url@, method@, body_view(*body), now) == Err::<
                EventView,
                Nip98Failure,
            >(f),
        },
{
    if ev.kind() != HTTP_AUTH_KIND {
        return Err(Nip98Failure::WrongKind);
    }
    let authorized_url = match find_tag_content(ev, "u") {
        Some(u) => u,
        None => return Err(Nip98Failure::MissingUrlTag),
    };
    let authorized_method = match find_tag_content(ev, "method") {
        Some(m) => m,
        None => return Err(Nip98Failure::MissingMethodTag),
    };
    if !str_eq(authorized_url.as_str(), url) || !str_eq(authorized_method.as_str(), method) {
        return Err(Nip98Failure::UrlOrMethodMismatch);
    }
    let created_at = ev.created_at();
    let in_range = if created_at > now {
        created_at - now <= MAX_FUTURE_SKEW_SECONDS
    } else {
        now - created_at <= MAX_AGE_SECONDS
    };
    if !in_range {
        return Err(Nip98Failure::TimestampOutOfRange);
    }
    check_payload(ev, body)?;
    if !verify_event(ev) {
        return Err(Nip98Failure::InvalidSignature);
    }
    Ok(())
}

/// Checks a NIP-98 `Authorization` header at the given Unix time `now`.
/// `url` is the full URL of the request, `method` its method and `body` its
/// body (`None` when empty). Returns the authorizing note, or the message of
/// the first check that fails.
pub fn nip98_verify_auth_header_at(
    auth_header: &str,
    url: &str,
    method: &str,
    body: &Option<Vec<u8>>,
    now: u64,
) -> (r: Result<NostrEvent, &'static str>)
    ensures
        matches_outcome(r, nip98_outcome(auth_header@, url@, method@, body_view(*body), now)),
        r matches Ok(note) ==> timestamp_in_range(now, note@.created_at),
{
    proof {
        lemma_accepted_note(auth_header@, url@, method@, body_view(*body), now);
    }
    let ghost outcome = nip98_outcome(auth_header@, url@, method@, body_view(*body), now);
    if auth_header.unicode_len() == 0 {
        return Err(Nip98Failure::HeaderMissing.message());
    }
    let parts = split_whitespace(auth_header);
    if parts.len() != 2 {
        return Err(Nip98Failure::NotTwoParts.message());
    }
    if !str_eq(parts[0].as_str(), "Nostr") {
        return Err(Nip98Failure::NotNostrScheme.message());
    }
    let encoded_note = parts[1].as_str();
    if encoded_note.unicode_len() == 0 {
        return Err(Nip98Failure::EmptyNote.message());
    }
    let decoded_note_json = match decode_base64(encoded_note.as_bytes()) {
        Some(j) => j,
        None => return Err(Nip98Failure::NotBase64.message()),
    };
    let note_value = match parse_json(decoded_note_json.as_slice()) {
        Some(v) => v,
        None => return Err(Nip98Failure::NotJson.message()),
    };
    let note = match event_from_json_value(note_value) {
        Some(n) => n,
        None => return Err(Nip98Failure::NotNostrEvent.message()),
    };
    match check_note(&note, url, method, body, now) {
        Ok(()) => Ok(note),
        Err(f) => Err(f.message()),
    }
}

/// Checks a NIP-98 `Authorization` header against the request's full URL,
/// method and body (`None` when empty), at the current time. Returns the
/// authorizing note, or the message of the first check that fails. Every
/// outcome is the one that `nip98_outcome` gives at some time: the clock is
/// the only input that the contract leaves open.
pub fn nip98_verify_auth_header(
    auth_header: &str,
    url: &str,
    method: &str,
    body: &Option<Vec<u8>>,
) -> (r: Result<NostrEvent, &'static str>)
    ensures
        exists|now: u64|
            matches_outcome(r, #[trigger] nip98_outcome(auth_header@, url@, method@, body_view(*body), now)),
        r matches Ok(note) ==> {
            &&& note@.kind == HTTP_AUTH_KIND
            &&& tag_content(note@.tags, "u"@) == Some(url@)
            &&& tag_content(note@.tags, "method"@) == Some(method@)
            &&& event_id_and_signature_valid(note@)
            &&& match body_view(*body) {
                Some(data) => tag_content(note@.tags, "payload"@) matches Some(p) && hex_decode(p)
                    == Some(sha256(data)),
                None => tag_content(note@.tags, "payload"@) is None,
            }
        },
{
    let now = current_unix_time();
    let r = nip98_verify_auth_header_at(auth_header, url, method, body, now);
    proof {
        lemma_accepted_note(auth_header@, url@, method@, body_view(*body), now);
    }
    r
}

/// A note that the NIP-98 check accepts is an HTTP-auth note whose `u` and
/// `method` tags name exactly the request's URL and method, whose id and
/// signature are valid, which is dated at most 30 seconds ahead of and 60
/// seconds behind the clock, and whose `payload` tag holds the SHA-256 of
/// the body when there is one, and is absent when there is none.
pub proof fn lemma_accepted_note(
    header: Seq<char>,
    url: Seq<char>,
    method: Seq<char>,
    body: Option<Seq<u8>>,
    now: u64,
)
    ensures
        nip98_outcome(header, url, method, body, now) matches Ok(ev) ==> {
            &&& ev.kind == HTTP_AUTH_KIND
            &&& tag_content(ev.tags, "u"@) == Some(url)
            &&& tag_content(ev.tags, "method"@) == Some(method)
            &&& event_id_and_signature_valid(ev)
            &&& timestamp_in_range(now, ev.created_at)
            &&& match body {
                Some(data) => tag_content(ev.tags, "payload"@) matches Some(p) && hex_decode(p)
                    == Some(sha256(data)),
                None => tag_content(ev.tags, "payload"@) is None,
            }
        },
{
}

} // verus!
