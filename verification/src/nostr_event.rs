//! Nostr events as plain values, and the `nostr` crate's computations on
//! them: JSON parsing, id and signature verification, and the clock.
use nostr::JsonUtil;
use vstd::prelude::*;

use crate::codec::JsonDocument;

verus! {

#[verifier::external_type_specification]
#[verifier::external_body]
pub struct ExNostrEvent(nostr::Event);

/// What the library reads of a Nostr event.
pub struct EventView {
    /// The event id, as hex.
    pub id: Seq<char>,
    /// The author's public key (32 bytes).
    pub pubkey: Seq<u8>,
    /// Unix time of creation, in seconds.
    pub created_at: u64,
    /// The event kind.
    pub kind: u16,
    /// The tags, each a list of strings.
    pub tags: Seq<Seq<Seq<char>>>,
    /// The content.
    pub content: Seq<char>,
    /// The Schnorr signature, as hex.
    pub sig: Seq<char>,
}

/// A Nostr event: the event that the `nostr` crate parsed, with the values
/// that the library's logic reads taken out of it as plain values. Only the
/// parsers of this module build one, from the same event.
pub struct NostrEvent {
    raw: nostr::Event,
    id: String,
    pubkey: Vec<u8>,
    created_at: u64,
    kind: u16,
    tags: Vec<Vec<String>>,
    content: String,
    sig: String,
}

pub open spec fn tag_view(t: Vec<String>) -> Seq<Seq<char>> {
    t@.map_values(|s: String| s@)
}

pub open spec fn tags_view(tags: Vec<Vec<String>>) -> Seq<Seq<Seq<char>>> {
    tags@.map_values(|t: Vec<String>| tag_view(t))
}

impl View for NostrEvent {
    type V = EventView;

    closed spec fn view(&self) -> EventView {
        EventView {
            id: self.id@,
            pubkey: self.pubkey@,
            created_at: self.created_at,
            kind: self.kind,
            tags: tags_view(self.tags),
            content: self.content@,
            sig: self.sig@,
        }
    }
}

impl NostrEvent {
    /// The event id, as hex.
    pub fn id(&self) -> (r: &String)
        ensures
            r@ == self@.id,
    {
        &self.id
    }

    /// The author's public key (32 bytes).
    pub fn pubkey(&self) -> (r: &Vec<u8>)
        ensures
            r@ == self@.pubkey,
    {
        &self.pubkey
    }

    /// Unix time of creation, in seconds.
    pub fn created_at(&self) -> (r: u64)
        ensures
            r == self@.created_at,
    {
        self.created_at
    }

    /// The event kind.
    pub fn kind(&self) -> (r: u16)
        ensures
            r == self@.kind,
    {
        self.kind
    }

    /// The tags.
    pub fn tags(&self) -> (r: &Vec<Vec<String>>)
        ensures
            tags_view(*r) == self@.tags,
    {
        &self.tags
    }

    /// The `nostr` crate's event that this event was read from, and whose
    /// values its view holds.
    pub closed spec fn nostr_event(&self) -> nostr::Event {
        self.raw
    }

    /// The event as the `nostr` crate holds it.
    pub fn as_nostr_event(&self) -> (r: &nostr::Event)
        ensures
            *r == self.nostr_event(),
    {
        &self.raw
    }
}

/// The event that `serde_json::from_value` reads from the JSON value that
/// `json` holds, by its plain values, or `None` where it reports an error.
pub uninterp spec fn event_from_json(json: Seq<u8>) -> Option<EventView>;

/// Reads a Nostr event from a JSON value with `serde_json::from_value`
/// (which does not check the id or the signature). Trusted: the result is
/// `event_from_json` of the bytes that the value was read from.
#[verifier::external_body]
pub fn event_from_json_value(json: JsonDocument) -> (r: Option<NostrEvent>)
    ensures
        match r {
            Some(e) => event_from_json(json@) == Some(e@),
            None => event_from_json(json@) is None,
        },
{
    match serde_json::from_value::<nostr::Event>(json.value) {
        Ok(ev) => Some(NostrEvent {
            id: ev.id.to_hex(),
            pubkey: ev.pubkey.to_bytes().to_vec(),
            created_at: ev.created_at.as_u64(),
            kind: ev.kind.as_u16(),
            tags: ev.tags.iter().map(|t| t.as_slice().to_vec()).collect(),
            content: ev.content.clone(),
            sig: ev.sig.to_string(),
            raw: ev,
        }),
        Err(_) => None,
    }
}

/// A message that a client sends to a relay, as the library tells them
/// apart: an `EVENT` message carries an event; the others are handled alike.
pub enum ClientMessage {
    Event(NostrEvent),
    Other,
}

/// A client message by its plain values.
pub enum ClientMessageView {
    Event(EventView),
    Other,
}

impl View for ClientMessage {
    type V = ClientMessageView;

    open spec fn view(&self) -> ClientMessageView {
        match self {
            ClientMessage::Event(e) => ClientMessageView::Event(e@),
            ClientMessage::Other => ClientMessageView::Other,
        }
    }
}

/// The client message that `nostr::ClientMessage::from_json` reads from
/// `text`, or `None` where it reports an error.
pub uninterp spec fn client_message_from_json(text: Seq<char>) -> Option<ClientMessageView>;

/// Parses a client message with `nostr::ClientMessage::from_json`. Trusted:
/// the result is `client_message_from_json` of the text.
#[verifier::external_body]
pub fn parse_client_message(text: &str) -> (r: Option<ClientMessage>)
    ensures
        match r {
            Some(m) => client_message_from_json(text@) == Some(m@),
            None => client_message_from_json(text@) is None,
        },
{
    match nostr::ClientMessage::from_json(text) {
        Ok(nostr::ClientMessage::Event(ev)) => Some(ClientMessage::Event(NostrEvent {
            id: ev.id.to_hex(),
            pubkey: ev.pubkey.to_bytes().to_vec(),
            created_at: ev.created_at.as_u64(),
            kind: ev.kind.as_u16(),
            tags: ev.tags.iter().map(|t| t.as_slice().to_vec()).collect(),
            content: ev.content.clone(),
            sig: ev.sig.to_string(),
            raw: *ev,
        })),
        Ok(_) => Some(ClientMessage::Other),
        Err(_) => None,
    }
}

/// Whether an event's id is the hash of its contents and its signature is
/// a valid Schnorr signature of that id by its public key.
pub uninterp spec fn event_id_and_signature_valid(ev: EventView) -> bool;

/// Checks the id and the signature of an event with `nostr::Event::verify`.
/// Trusted: the result is `event_id_and_signature_valid` of the event's
/// values, which determine the event.
#[verifier::external_body]
pub fn verify_event(ev: &NostrEvent) -> (r: bool)
    ensures
        r == event_id_and_signature_valid(ev@),
{
    ev.raw.verify().is_ok()
}

/// The current Unix time in seconds, from `nostr::Timestamp::now`. Nothing
/// is promised of the value: it is the machine's clock.
#[verifier::external_body]
pub fn current_unix_time() -> (r: u64) {
    nostr::Timestamp::now().as_u64()
}

/// The content (second element) of the first tag whose name (first
/// element) is `name`, if that tag has one: what `Tags::find` followed by
/// `Tag::content` gives, since two tag kinds are equal exactly when their
/// names are.
pub open spec fn tag_content(tags: Seq<Seq<Seq<char>>>, name: Seq<char>) -> Option<Seq<char>>
    decreases tags.len(),
{
    if tags.len() == 0 {
        None
    } else if tags[0].len() > 0 && tags[0][0] == name {
        if tags[0].len() > 1 {
            Some(tags[0][1])
        } else {
            None
        }
    } else {
        tag_content(tags.drop_first(), name)
    }
}

/// The content of the first tag of `ev` named `name`.
pub fn find_tag_content(ev: &NostrEvent, name: &str) -> (r: Option<String>)
    ensures
        match r {
            Some(c) => tag_content(ev@.tags, name@) == Some(c@),
            None => tag_content(ev@.tags, name@) is None,
        },
{
    let tags = ev.tags();
    let ghost all = tags_view(*tags);
    let mut i: usize = 0;
    assert(all.subrange(0, all.len() as int) =~= all);
    while i < tags.len()
        invariant
            all == tags_view(*tags),
            all == ev@.tags,
            all.len() == tags@.len(),
            i <= tags@.len(),
            tag_content(all, name@) == tag_content(all.subrange(i as int, all.len() as int), name@),
        decreases tags@.len() - i,
    {
        let tag = &tags[i];
        let ghost rest = all.subrange(i as int, all.len() as int);
        assert(rest[0] == tag_view(*tag));
        assert(rest.drop_first() =~= all.subrange(i + 1, all.len() as int));
        assert(rest[0].len() == tag@.len());
        if tag.len() > 0 && crate::text::str_eq(tag[0].as_str(), name) {
            assert(rest[0][0] == tag@[0]@);
            if tag.len() > 1 {
                assert(rest[0][1] == tag@[1]@);
                return Some(tag[1].clone());
            } else {
                return None;
            }
        }
        if tag.len() > 0 {
            assert(rest[0][0] == tag@[0]@);
        }
        i = i + 1;
    }
    None
}

} // verus!
