//! Byte and text codecs that the library takes from outside crates: base64,
//! hex, SHA-256, JSON well-formedness and percent-decoding.
use base64::Engine;
use vstd::prelude::*;

verus! {

/// What the standard base64 engine of the `base64` crate (RFC 4648
/// alphabet, with canonical padding) decodes `input` to, or `None` where it
/// reports an error.
pub uninterp spec fn base64_standard_decode(input: Seq<u8>) -> Option<Seq<u8>>;

/// Decodes standard base64 with `base64::engine::general_purpose::STANDARD`.
/// Trusted: the result is `base64_standard_decode` of the input.
#[verifier::external_body]
pub fn decode_base64(input: &[u8]) -> (r: Option<Vec<u8>>)
    ensures
        match r {
            Some(v) => base64_standard_decode(input@) == Some(v@),
            None => base64_standard_decode(input@) is None,
        },
{
    base64::engine::general_purpose::STANDARD.decode(input).ok()
}

/// Whether `serde_json` reads `bytes` as one JSON value.
pub uninterp spec fn json_is_valid(bytes: Seq<u8>) -> bool;

#[verifier::external_type_specification]
#[verifier::external_body]
pub struct ExJsonValue(serde_json::Value);

/// A JSON value that `serde_json` read, with the bytes that it was read
/// from. Only `parse_json` builds one, so the bytes determine the value.
pub struct JsonDocument {
    pub(crate) value: serde_json::Value,
    pub(crate) source: Vec<u8>,
}

impl View for JsonDocument {
    type V = Seq<u8>;

    /// The bytes that the value was read from.
    closed spec fn view(&self) -> Seq<u8> {
        self.source@
    }
}

/// Reads `bytes` as a JSON value with `serde_json::from_slice` into a
/// `serde_json::Value`. Trusted: it succeeds as `json_is_valid` says, and
/// keeps the bytes that the value was read from.
#[verifier::external_body]
pub fn parse_json(bytes: &[u8]) -> (r: Option<JsonDocument>)
    ensures
        r is Some <==> json_is_valid(bytes@),
        r matches Some(d) ==> d@ == bytes@,
{
    match serde_json::from_slice::<serde_json::Value>(bytes) {
        Ok(value) => Some(JsonDocument { value, source: bytes.to_vec() }),
        Err(_) => None,
    }
}

/// The value of an ASCII hexadecimal digit, of either case.
pub open spec fn hex_digit_value(c: char) -> Option<u8> {
    if '0' <= c && c <= '9' {
        Some((c as int - '0' as int) as u8)
    } else if 'a' <= c && c <= 'f' {
        Some((c as int - 'a' as int + 10) as u8)
    } else if 'A' <= c && c <= 'F' {
        Some((c as int - 'A' as int + 10) as u8)
    } else {
        None
    }
}

/// Hexadecimal decoding: two digits per byte, high digit first; `None`
/// where the length is odd or a character is not a hex digit.
pub open spec fn hex_decode(s: Seq<char>) -> Option<Seq<u8>> {
    if s.len() % 2 == 0 && forall|i: int| 0 <= i < s.len() ==> #[trigger] hex_digit_value(s[i]) is Some {
        Some(
            Seq::new(
                s.len() / 2,
                |k: int|
                    (hex_digit_value(s[2 * k])->0 as int * 16 + hex_digit_value(
                        s[2 * k + 1],
                    )->0 as int) as u8,
            ),
        )
    } else {
        None
    }
}

/// Decodes hex with `nostr::util::hex::decode`. Trusted: it decodes exactly
/// as `hex_decode` states (its source checks the even length, then maps
/// `0-9`, `a-f`, `A-F` and refuses any other byte; a non-ASCII character
/// is never a hex digit).
#[verifier::external_body]
pub fn decode_hex(s: &str) -> (r: Option<Vec<u8>>)
    ensures
        match r {
            Some(v) => hex_decode(s@) == Some(v@),
            None => hex_decode(s@) is None,
        },
{
    nostr::util::hex::decode(s).ok()
}

/// Parses a public key from hex with `nostr::PublicKey::from_hex`, which
/// takes exactly 64 hex digits and no curve check. Trusted: the key's bytes
/// are `hex_decode` of the text where that gives 32 bytes, and `None`
/// otherwise.
#[verifier::external_body]
pub fn public_key_from_hex(s: &str) -> (r: Option<Vec<u8>>)
    ensures
        match r {
            Some(v) => hex_decode(s@) == Some(v@) && v@.len() == 32,
            None => !(hex_decode(s@) is Some && hex_decode(s@)->0.len() == 32),
        },
{
    match nostr::PublicKey::from_hex(s) {
        Ok(pk) => Some(pk.to_bytes().to_vec()),
        Err(_) => None,
    }
}

/// The SHA-256 digest of `data`.
pub uninterp spec fn sha256(data: Seq<u8>) -> Seq<u8>;

/// Hashes `data` with SHA-256 (`bitcoin_hashes`' `sha256::Hash::hash`, as
/// re-exported by `nostr`). Trusted: the result is `sha256` of the data, and
/// a SHA-256 digest is 32 bytes long.
#[verifier::external_body]
pub fn sha256_digest(data: &[u8]) -> (r: Vec<u8>)
    ensures
        r@ == sha256(data@),
        r@.len() == 32,
{
    let h: nostr::hashes::sha256::Hash = nostr::hashes::Hash::hash(data);
    nostr::hashes::Hash::to_byte_array(h).to_vec()
}

/// Reads a SHA-256 digest from bytes with `sha256::Hash::from_slice`.
/// Trusted: it succeeds exactly on 32 bytes and keeps them.
#[verifier::external_body]
pub fn sha256_from_slice(bytes: &[u8]) -> (r: Option<Vec<u8>>)
    ensures
        match r {
            Some(v) => bytes@.len() == 32 && v@ == bytes@,
            None => bytes@.len() != 32,
        },
{
    let r: Result<nostr::hashes::sha256::Hash, _> = nostr::hashes::Hash::from_slice(bytes);
    match r {
        Ok(h) => Some(nostr::hashes::Hash::to_byte_array(h).to_vec()),
        Err(_) => None,
    }
}

/// What `urlencoding::decode` makes of `s`: `%` followed by two hex digits
/// stands for that byte, and the bytes must then be UTF-8; `None` where
/// they are not.
pub uninterp spec fn url_percent_decode(s: Seq<char>) -> Option<Seq<char>>;

/// Percent-decodes `s` with `urlencoding::decode`. Trusted: the result is
/// `url_percent_decode` of the text.
#[verifier::external_body]
pub fn percent_decode(s: &str) -> (r: Option<String>)
    ensures
        match r {
            Some(v) => url_percent_decode(s@) == Some(v@),
            None => url_percent_decode(s@) is None,
        },
{
    match urlencoding::decode(s) {
        Ok(d) => Some(d.into_owned()),
        Err(_) => None,
    }
}

/// The name and value pairs that `form_urlencoded::parse` reads from a
/// query string, in order.
pub uninterp spec fn form_urlencoded_pairs(query: Seq<u8>) -> Seq<(Seq<char>, Seq<char>)>;

/// Parses a URL query string with `form_urlencoded::parse` (as re-exported
/// by `nostr`'s `url`). Trusted: the pairs are `form_urlencoded_pairs` of
/// the bytes.
#[verifier::external_body]
pub fn parse_query_pairs(query: &[u8]) -> (r: Vec<(String, String)>)
    ensures
        r@.len() == form_urlencoded_pairs(query@).len(),
        forall|i: int|
            0 <= i < r@.len() ==> (#[trigger] r@[i]).0@ == form_urlencoded_pairs(query@)[i].0
                && r@[i].1@ == form_urlencoded_pairs(query@)[i].1,
{
    nostr::types::url::form_urlencoded::parse(query)
        .map(|(k, v)| (k.into_owned(), v.into_owned()))
        .collect()
}

} // verus!
