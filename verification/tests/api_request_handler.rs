use base64::Engine;
use nostr::JsonUtil;
use notepush::api_request_handler::{
    APIError, APIHandler, ActionOutcome, BackendAction, HttpRequest, NotificationBackend,
    RequestError, ResponseBody, Step,
};

const SECRET_KEY: &str = "6b911fd37cdf5c81d4c0adb1ab7fa822ed253ab0ad9aa18d77257c88b29b718e";
const OTHER_SECRET_KEY: &str = "7c5b4d0e1f2a3b4c5d6e7f8091a2b3c4d5e6f708192a3b4c5d6e7f8091a2b3c4";
const BASE_URL: &str = "https://api.example";

fn pubkey_hex(secret: &str) -> String {
    nostr::Keys::parse(secret).unwrap().public_key().to_hex()
}

fn sha256_hex(data: &[u8]) -> String {
    let h: nostr::hashes::sha256::Hash = nostr::hashes::Hash::hash(data);
    nostr::util::hex::encode(nostr::hashes::Hash::to_byte_array(h))
}

fn auth_header(secret: &str, url: &str, method: &str, body: &[u8]) -> Vec<u8> {
    let mut tags = vec![
        nostr::Tag::parse(["u", url]).unwrap(),
        nostr::Tag::parse(["method", method]).unwrap(),
    ];
    if !body.is_empty() {
        tags.push(nostr::Tag::parse(["payload", sha256_hex(body).as_str()]).unwrap());
    }
    let note = nostr::EventBuilder::new(nostr::Kind::HttpAuth, "")
        .tags(tags)
        .sign_with_keys(&nostr::Keys::parse(secret).unwrap())
        .unwrap();
    format!("Nostr {}", base64::engine::general_purpose::STANDARD.encode(note.as_json()))
        .into_bytes()
}

fn request(method: &str, path: &str, query: Option<&str>, body: &[u8]) -> HttpRequest {
    signed_request(SECRET_KEY, method, path, query, body)
}

fn signed_request(secret: &str, method: &str, path: &str, query: Option<&str>, body: &[u8]) -> HttpRequest {
    let path_and_query = match query {
        Some(q) => format!("{}?{}", path, q),
        None => path.to_string(),
    };
    let url = format!("{}{}", BASE_URL, path_and_query);
    HttpRequest {
        method: method.to_string(),
        path: path.to_string(),
        path_and_query: Some(path_and_query),
        query: query.map(|q| q.to_string()),
        authorization: Some(auth_header(secret, &url, method, body)),
        body: body.to_vec(),
    }
}

fn handler() -> APIHandler {
    APIHandler::new(BASE_URL.to_string(), vec![NotificationBackend::Apns])
}

fn response(step: Step) -> (u16, ResponseBody) {
    match step {
        Step::Respond(r) => (r.status, r.body),
        Step::Perform(_) => panic!("expected a response"),
    }
}

fn action(step: Step) -> BackendAction {
    match step {
        Step::Perform(a) => a,
        Step::Respond(r) => panic!("expected an action, got status {}", r.status),
    }
}

fn error_text(body: ResponseBody) -> String {
    match body {
        ResponseBody::Error(e) => e,
        _ => panic!("expected an error body"),
    }
}

fn user_path(pubkey: &str, token: &str) -> String {
    format!("/user-info/{}/{}", pubkey, token)
}

#[test]
fn registers_a_device_with_the_default_backend() {
    let pk = pubkey_hex(SECRET_KEY);
    let step = handler().handle_http_request(&request("PUT", &user_path(&pk, "tok"), None, b""));
    match action(step) {
        BackendAction::SaveUserDeviceInfo { pubkey, device_token, backend } => {
            assert_eq!(nostr::util::hex::encode(pubkey), pk);
            assert_eq!(device_token, "tok");
            assert_eq!(backend, NotificationBackend::Apns);
        }
        _ => panic!("wrong action"),
    }
}

#[test]
fn refuses_an_unsupported_or_unknown_backend() {
    let pk = pubkey_hex(SECRET_KEY);
    let (status, body) = response(
        handler().handle_http_request(&request("PUT", &user_path(&pk, "tok"), Some("backend=fcm"), b"")),
    );
    assert_eq!(status, 400);
    assert_eq!(error_text(body), "Backend not supported");
    let (status, body) = response(
        handler().handle_http_request(&request("PUT", &user_path(&pk, "tok"), Some("backend=sms"), b"")),
    );
    assert_eq!(status, 400);
    assert_eq!(error_text(body), "backend is invalid");
}

#[test]
fn takes_the_backend_from_the_query() {
    let pk = pubkey_hex(SECRET_KEY);
    let h = APIHandler::new(BASE_URL.to_string(), vec![NotificationBackend::Fcm]);
    let step = h.handle_http_request(&request("PUT", &user_path(&pk, "tok"), Some("x=1&backend=fcm"), b""));
    match action(step) {
        BackendAction::SaveUserDeviceInfo { backend, .. } => assert_eq!(backend, NotificationBackend::Fcm),
        _ => panic!("wrong action"),
    }
}

#[test]
fn removes_a_device() {
    let pk = pubkey_hex(SECRET_KEY);
    let step = handler().handle_http_request(&request("DELETE", &user_path(&pk, "a%20b"), None, b""));
    match action(step) {
        BackendAction::RemoveUserDeviceInfo { device_token, .. } => assert_eq!(device_token, "a b"),
        _ => panic!("wrong action"),
    }
}

#[test]
fn reads_and_stores_settings() {
    let pk = pubkey_hex(SECRET_KEY);
    let path = format!("{}/preference", user_path(&pk, "tok"));
    match action(handler().handle_http_request(&request("GET", &path, None, b""))) {
        BackendAction::GetUserNotificationSettings { device_token, .. } => assert_eq!(device_token, "tok"),
        _ => panic!("wrong action"),
    }
    let body = b"{\"zap_notifications_enabled\":true}";
    match action(handler().handle_http_request(&request("PUT", &path, None, body))) {
        BackendAction::SaveUserNotificationSettings { settings_json, .. } => assert_eq!(settings_json, body.to_vec()),
        _ => panic!("wrong action"),
    }
    match action(handler().handle_http_request(&request("PUT", &path, None, b""))) {
        BackendAction::SaveUserNotificationSettings { settings_json, .. } => assert_eq!(settings_json, b"{}".to_vec()),
        _ => panic!("wrong action"),
    }
}

#[test]
fn a_body_that_is_not_json_is_an_internal_error() {
    let pk = pubkey_hex(SECRET_KEY);
    let path = format!("{}/preference", user_path(&pk, "tok"));
    let (status, body) = response(handler().handle_http_request(&request("PUT", &path, None, b"not json")));
    assert_eq!(status, 500);
    assert!(matches!(body, ResponseBody::InternalError));
}

#[test]
fn refuses_another_users_pubkey() {
    let other = pubkey_hex(OTHER_SECRET_KEY);
    let (status, body) = response(handler().handle_http_request(&request("PUT", &user_path(&other, "tok"), None, b"")));
    assert_eq!(status, 401);
    match body {
        ResponseBody::Unauthorized(m) => assert_eq!(m, "pubkey doesnt match authorized pubkey"),
        _ => panic!("expected unauthorized"),
    }
}

#[test]
fn refuses_an_invalid_pubkey_or_token() {
    let (status, body) = response(handler().handle_http_request(&request("PUT", &user_path("zz", "tok"), None, b"")));
    assert_eq!(status, 400);
    assert_eq!(error_text(body), "Invalid parameter pubkey");
    let pk = pubkey_hex(SECRET_KEY);
    let (status, body) = response(handler().handle_http_request(&request("PUT", &user_path(&pk, "%FF"), None, b"")));
    assert_eq!(status, 400);
    assert_eq!(error_text(body), "Invalid parameter deviceToken");
}

#[test]
fn unknown_paths_and_methods_are_not_found() {
    let pk = pubkey_hex(SECRET_KEY);
    for (method, path) in [("GET", "/other".to_string()), ("GET", user_path(&pk, "tok")), ("POST", format!("{}/preference", user_path(&pk, "tok")))] {
        let (status, body) = response(handler().handle_http_request(&request(method, &path, None, b"")));
        assert_eq!(status, 404);
        assert_eq!(error_text(body), "Not found");
    }
}

#[test]
fn requests_without_authorization_are_unauthorized() {
    let mut req = request("PUT", "/user-info/a/b", None, b"");
    req.authorization = None;
    let (status, body) = response(handler().handle_http_request(&req));
    assert_eq!(status, 401);
    match body {
        ResponseBody::Unauthorized(m) => assert_eq!(m, "Authorization header not found"),
        _ => panic!("expected unauthorized"),
    }
}

#[test]
fn a_failed_nip98_check_is_unauthorized() {
    let pk = pubkey_hex(SECRET_KEY);
    let mut req = request("PUT", &user_path(&pk, "tok"), None, b"");
    req.method = "DELETE".to_string();
    let (status, body) = response(handler().handle_http_request(&req));
    assert_eq!(status, 401);
    match body {
        ResponseBody::Unauthorized(m) => assert_eq!(m, "Auth note url and/or method does not match request"),
        _ => panic!("expected unauthorized"),
    }
}

#[test]
fn a_header_that_is_not_visible_ascii_is_an_internal_error() {
    let mut req = request("PUT", "/user-info/a/b", None, b"");
    req.authorization = Some(vec![b'N', 0x01]);
    let (status, _) = response(handler().handle_http_request(&req));
    assert_eq!(status, 500);
}

#[test]
fn parsed_requests_hold_the_authorizing_key_and_query() {
    let req = request("GET", "/x", Some("a=1&b=two+words"), b"");
    let now = nostr::Timestamp::now().as_u64();
    let parsed = handler().parse_http_request_at(&req, now).ok().unwrap();
    assert_eq!(nostr::util::hex::encode(&parsed.authorized_pubkey), pubkey_hex(SECRET_KEY));
    assert_eq!(parsed.query, vec![("a".to_string(), "1".to_string()), ("b".to_string(), "two words".to_string())]);
    assert_eq!(parsed.uri, "/x");
    assert!(parsed.body_bytes.is_none());
}

#[test]
fn outcomes_become_responses() {
    let h = handler();
    let save = BackendAction::SaveUserDeviceInfo { pubkey: vec![], device_token: "t".into(), backend: NotificationBackend::Apns };
    let r = h.finish_action(&save, ActionOutcome::Done);
    assert_eq!(r.status, 200);
    assert!(matches!(r.body, ResponseBody::Message(ref m) if m == "User info saved successfully"));
    let remove = BackendAction::RemoveUserDeviceInfo { pubkey: vec![], device_token: "t".into() };
    let r = h.finish_action(&remove, ActionOutcome::Done);
    assert!(matches!(r.body, ResponseBody::Message(ref m) if m == "User info removed successfully"));
    let set = BackendAction::SaveUserNotificationSettings { pubkey: vec![], device_token: "t".into(), settings_json: b"{}".to_vec() };
    let r = h.finish_action(&set, ActionOutcome::InvalidSettings);
    assert_eq!(r.status, 400);
    assert!(matches!(r.body, ResponseBody::Error(ref m) if m == "Invalid settings"));
    let r = h.finish_action(&set, ActionOutcome::Done);
    assert!(matches!(r.body, ResponseBody::Message(ref m) if m == "User settings saved successfully"));
    let get = BackendAction::GetUserNotificationSettings { pubkey: vec![], device_token: "t".into() };
    let r = h.finish_action(&get, ActionOutcome::Settings("{\"x\":1}".into()));
    assert_eq!(r.status, 200);
    assert!(matches!(r.body, ResponseBody::Json(ref j) if j == "{\"x\":1}"));
    let r = h.finish_action(&get, ActionOutcome::Failed);
    assert_eq!(r.status, 500);
}

#[test]
fn api_errors_have_their_texts() {
    assert_eq!(APIError::MissingParameter("pubkey".into()).message(), "Missing required parameter pubkey");
    assert_eq!(APIError::InvalidParameter("deviceToken".into()).message(), "Invalid parameter deviceToken");
    assert_eq!(APIError::AuthenticationError("x".into()).message(), "Authentication error: x");
    let r = handler().error_response(RequestError::Api(APIError::MissingParameter("pubkey".into())));
    assert_eq!(r.status, 400);
    assert!(matches!(r.body, ResponseBody::Error(ref m) if m == "Missing required parameter pubkey"));
}

#[test]
fn backend_names() {
    assert_eq!(NotificationBackend::from_name("apns"), Some(NotificationBackend::Apns));
    assert_eq!(NotificationBackend::from_name("fcm"), Some(NotificationBackend::Fcm));
    assert_eq!(NotificationBackend::from_name("APNS"), None);
}

fn parsed(body: Option<&[u8]>) -> notepush::api_request_handler::ParsedRequest {
    notepush::api_request_handler::ParsedRequest {
        uri: "/".to_string(),
        method: "PUT".to_string(),
        body_bytes: body.map(|b| b.to_vec()),
        authorized_pubkey: vec![0u8; 32],
        query: vec![],
    }
}

#[test]
fn body_json_is_the_body_or_an_empty_object() {
    assert_eq!(parsed(None).body_json().ok(), Some(b"{}".to_vec()));
    assert_eq!(parsed(Some(b"[1, 2]")).body_json().ok(), Some(b"[1, 2]".to_vec()));
    assert!(matches!(parsed(Some(b"{nope")).body_json(), Err(RequestError::Internal)));
}
