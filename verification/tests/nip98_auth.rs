use base64::Engine;
use nostr::JsonUtil;
use notepush::nip98_auth::{nip98_verify_auth_header, nip98_verify_auth_header_at, Nip98Failure};

const SECRET_KEY: &str = "6b911fd37cdf5c81d4c0adb1ab7fa822ed253ab0ad9aa18d77257c88b29b718e";
const URL: &str = "https://notepush.example/user-info/abc/def";
const CREATED_AT: u64 = 1_700_000_000;

fn keys() -> nostr::Keys {
    nostr::Keys::parse(SECRET_KEY).unwrap()
}

fn signed_note(kind: u16, tags: Vec<Vec<&str>>, created_at: u64) -> nostr::Event {
    let tags: Vec<nostr::Tag> = tags.into_iter().map(|t| nostr::Tag::parse(t).unwrap()).collect();
    nostr::EventBuilder::new(nostr::Kind::from(kind), "")
        .tags(tags)
        .custom_created_at(nostr::Timestamp::from(created_at))
        .sign_with_keys(&keys())
        .unwrap()
}

fn header_for_json(json: &str) -> String {
    format!("Nostr {}", base64::engine::general_purpose::STANDARD.encode(json.as_bytes()))
}

fn header_for(note: &nostr::Event) -> String {
    header_for_json(&note.as_json())
}

fn sha256_hex(data: &[u8]) -> String {
    let h: nostr::hashes::sha256::Hash = nostr::hashes::Hash::hash(data);
    nostr::util::hex::encode(nostr::hashes::Hash::to_byte_array(h))
}

fn get_note() -> nostr::Event {
    signed_note(27235, vec![vec!["u", URL], vec!["method", "GET"]], CREATED_AT)
}

fn check(header: &str, method: &str, body: Option<Vec<u8>>, now: u64) -> Result<Vec<u8>, &'static str> {
    nip98_verify_auth_header_at(header, URL, method, &body, now).map(|n| n.pubkey().clone())
}

#[test]
fn accepts_a_valid_note_without_body() {
    let note = get_note();
    let r = check(&header_for(&note), "GET", None, CREATED_AT + 5);
    assert_eq!(r, Ok(keys().public_key().to_bytes().to_vec()));
}

#[test]
fn accepted_note_keeps_its_values() {
    let note = get_note();
    let ev = nip98_verify_auth_header_at(&header_for(&note), URL, "GET", &None, CREATED_AT).unwrap();
    assert_eq!(ev.kind(), 27235);
    assert_eq!(ev.created_at(), CREATED_AT);
    assert_eq!(ev.id(), &note.id.to_hex());
    assert_eq!(ev.tags().len(), 2);
    assert_eq!(ev.as_nostr_event(), &note);
}

#[test]
fn accepts_a_valid_note_with_body_hash() {
    let body = b"{\"a\":1}".to_vec();
    let hash = sha256_hex(&body);
    let note = signed_note(
        27235,
        vec![vec!["u", URL], vec!["method", "PUT"], vec!["payload", &hash]],
        CREATED_AT,
    );
    assert!(check(&header_for(&note), "PUT", Some(body), CREATED_AT).is_ok());
}

#[test]
fn accepts_upper_case_payload_hex() {
    let body = b"hello".to_vec();
    let hash = sha256_hex(&body).to_uppercase();
    let note = signed_note(
        27235,
        vec![vec!["u", URL], vec!["method", "PUT"], vec!["payload", &hash]],
        CREATED_AT,
    );
    assert!(check(&header_for(&note), "PUT", Some(body), CREATED_AT).is_ok());
}

#[test]
fn refuses_an_empty_header() {
    assert_eq!(check("", "GET", None, CREATED_AT), Err("Nostr authorization header missing"));
}

#[test]
fn refuses_a_header_without_two_parts() {
    let msg = Err("Nostr authorization header does not have 2 parts");
    assert_eq!(check("Nostr", "GET", None, CREATED_AT), msg);
    assert_eq!(check("   ", "GET", None, CREATED_AT), msg);
    assert_eq!(check("Nostr a b", "GET", None, CREATED_AT), msg);
}

#[test]
fn refuses_another_scheme() {
    let header = header_for(&get_note()).replacen("Nostr", "Bearer", 1);
    assert_eq!(
        check(&header, "GET", None, CREATED_AT),
        Err("Nostr authorization header does not start with `Nostr`")
    );
    let lower = header_for(&get_note()).replacen("Nostr", "nostr", 1);
    assert_eq!(
        check(&lower, "GET", None, CREATED_AT),
        Err("Nostr authorization header does not start with `Nostr`")
    );
}

#[test]
fn splits_on_any_unicode_white_space() {
    let note = get_note();
    let encoded = base64::engine::general_purpose::STANDARD.encode(note.as_json().as_bytes());
    for sep in ["\t", "  ", "\n", "\u{3000}", "\u{a0}", "\u{2003}"] {
        let header = format!(" Nostr{}{} ", sep, encoded);
        assert!(check(&header, "GET", None, CREATED_AT).is_ok(), "separator {:?}", sep);
    }
}

#[test]
fn refuses_bad_base64() {
    assert_eq!(
        check("Nostr not*base64", "GET", None, CREATED_AT),
        Err("Failed to decode base64 encoded note from Nostr authorization header")
    );
}

#[test]
fn refuses_text_that_is_not_json() {
    assert_eq!(
        check(&header_for_json("not json"), "GET", None, CREATED_AT),
        Err("Could not parse JSON note from authorization header")
    );
}

#[test]
fn refuses_json_that_is_not_an_event() {
    assert_eq!(
        check(&header_for_json("{\"a\":1}"), "GET", None, CREATED_AT),
        Err("Could not parse Nostr note from JSON")
    );
}

#[test]
fn refuses_the_wrong_kind() {
    let note = signed_note(1, vec![vec!["u", URL], vec!["method", "GET"]], CREATED_AT);
    assert_eq!(
        check(&header_for(&note), "GET", None, CREATED_AT),
        Err("Nostr note kind in authorization header is incorrect")
    );
}

#[test]
fn refuses_missing_url_and_method_tags() {
    let no_u = signed_note(27235, vec![vec!["method", "GET"]], CREATED_AT);
    assert_eq!(
        check(&header_for(&no_u), "GET", None, CREATED_AT),
        Err("Missing 'u' tag from Nostr authorization header")
    );
    let u_without_content = signed_note(27235, vec![vec!["u"], vec!["u", URL], vec!["method", "GET"]], CREATED_AT);
    assert_eq!(
        check(&header_for(&u_without_content), "GET", None, CREATED_AT),
        Err("Missing 'u' tag from Nostr authorization header")
    );
    let no_method = signed_note(27235, vec![vec!["u", URL]], CREATED_AT);
    assert_eq!(
        check(&header_for(&no_method), "GET", None, CREATED_AT),
        Err("Missing 'method' tag from Nostr authorization header")
    );
}

#[test]
fn uses_the_first_tag_of_a_name() {
    let note = signed_note(
        27235,
        vec![vec!["u", "https://other.example/"], vec!["u", URL], vec!["method", "GET"]],
        CREATED_AT,
    );
    assert_eq!(
        check(&header_for(&note), "GET", None, CREATED_AT),
        Err("Auth note url and/or method does not match request")
    );
}

#[test]
fn refuses_a_url_or_method_mismatch() {
    let note = get_note();
    let msg = Err("Auth note url and/or method does not match request");
    assert_eq!(check(&header_for(&note), "PUT", None, CREATED_AT), msg);
    let other = nip98_verify_auth_header_at(&header_for(&note), "https://notepush.example/", "GET", &None, CREATED_AT);
    assert_eq!(other.err(), Some("Auth note url and/or method does not match request"));
}

#[test]
fn timestamp_window_is_thirty_seconds_ahead_and_sixty_behind() {
    let header = header_for(&get_note());
    let msg = Err("Auth timestamp is out of range");
    assert!(check(&header, "GET", None, CREATED_AT + 60).is_ok());
    assert_eq!(check(&header, "GET", None, CREATED_AT + 61), msg);
    assert!(check(&header, "GET", None, CREATED_AT - 30).is_ok());
    assert_eq!(check(&header, "GET", None, CREATED_AT - 31), msg);
}

#[test]
fn refuses_body_without_payload_tag() {
    let note = signed_note(27235, vec![vec!["u", URL], vec!["method", "PUT"]], CREATED_AT);
    assert_eq!(
        check(&header_for(&note), "PUT", Some(b"x".to_vec()), CREATED_AT),
        Err("Missing 'payload' tag from Nostr authorization header")
    );
}

#[test]
fn refuses_payload_that_is_not_hex() {
    let note = signed_note(27235, vec![vec!["u", URL], vec!["method", "PUT"], vec!["payload", "xyz"]], CREATED_AT);
    assert_eq!(
        check(&header_for(&note), "PUT", Some(b"x".to_vec()), CREATED_AT),
        Err("Failed to decode hex encoded payload from Nostr authorization header")
    );
}

#[test]
fn refuses_payload_of_the_wrong_length() {
    let note = signed_note(27235, vec![vec!["u", URL], vec!["method", "PUT"], vec!["payload", "abcd"]], CREATED_AT);
    assert_eq!(
        check(&header_for(&note), "PUT", Some(b"x".to_vec()), CREATED_AT),
        Err("Failed to convert hex encoded payload to Sha256Hash")
    );
}

#[test]
fn refuses_a_payload_hash_mismatch() {
    let hash = sha256_hex(b"other body");
    let note = signed_note(27235, vec![vec!["u", URL], vec!["method", "PUT"], vec!["payload", &hash]], CREATED_AT);
    assert_eq!(
        check(&header_for(&note), "PUT", Some(b"body".to_vec()), CREATED_AT),
        Err("Auth note payload hash does not match request body hash")
    );
}

#[test]
fn refuses_payload_tag_without_body() {
    let hash = sha256_hex(b"body");
    let note = signed_note(27235, vec![vec!["u", URL], vec!["method", "GET"], vec!["payload", &hash]], CREATED_AT);
    assert_eq!(
        check(&header_for(&note), "GET", None, CREATED_AT),
        Err("Auth note has payload tag but request has no body")
    );
}

#[test]
fn refuses_a_tampered_note() {
    let json = get_note().as_json().replace("\"content\":\"\"", "\"content\":\"x\"");
    assert_eq!(
        check(&header_for_json(&json), "GET", None, CREATED_AT),
        Err("Auth note id or signature is invalid")
    );
}

#[test]
fn failure_messages_are_the_reported_ones() {
    assert_eq!(Nip98Failure::HeaderMissing.message(), "Nostr authorization header missing");
    assert_eq!(Nip98Failure::InvalidSignature.message(), "Auth note id or signature is invalid");
    assert_eq!(Nip98Failure::EmptyNote.message(), "Nostr authorization header does not have a base64 encoded note");
}

#[test]
fn checks_at_the_current_time() {
    let now = nostr::Timestamp::now().as_u64();
    let note = signed_note(27235, vec![vec!["u", URL], vec!["method", "GET"]], now);
    assert!(nip98_verify_auth_header(&header_for(&note), URL, "GET", &None).is_ok());
    let old = get_note();
    assert_eq!(
        nip98_verify_auth_header(&header_for(&old), URL, "GET", &None).err(),
        Some("Auth timestamp is out of range")
    );
}

#[test]
fn a_repeated_json_key_keeps_its_last_value() {
    let json = get_note().as_json().replacen("{", "{\"kind\":1,", 1);
    assert!(check(&header_for_json(&json), "GET", None, CREATED_AT).is_ok());
}
