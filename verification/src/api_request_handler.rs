//! The HTTP API: authenticating a request with NIP-98, routing it, checking
//! its parameters, and deciding what the notification backend must do and
//! what the client is answered.
//!
//! The work with the notification store is outside the library: a request
//! becomes a [`Step`], either a response or a [`BackendAction`] for the
//! caller to perform, whose [`ActionOutcome`] then becomes the response.
use vstd::prelude::*;

use crate::codec::{
    form_urlencoded_pairs, hex_decode, json_is_valid, parse_json, parse_query_pairs, percent_decode,
    public_key_from_hex, url_percent_decode,
};
use crate::nip98_auth::{
    body_view, failure_message, nip98_outcome,
};
use crate::text::{bytes_eq, str_eq, string_from_utf8};

verus! {

// MARK: - Routing with matchit
#[verifier::external_type_specification]
#[verifier::external_body]
#[verifier::reject_recursive_types(T)]
pub struct ExRouter<T>(matchit::Router<T>);

/// The routes of a router, with their values, in the order of insertion.
pub uninterp spec fn router_routes(router: matchit::Router<u8>) -> Seq<(Seq<char>, u8)>;

/// Whether `matchit` accepts `route` into a router that holds `routes`.
pub uninterp spec fn route_insert_ok(routes: Seq<(Seq<char>, u8)>, route: Seq<char>) -> bool;

/// What `matchit` matches `path` to in a router that holds `routes`: the
/// value of the matching route and the route's parameters with their raw
/// values, in order; `None` where no route matches.
pub uninterp spec fn route_lookup(routes: Seq<(Seq<char>, u8)>, path: Seq<char>) -> Option<
    (u8, Seq<(Seq<char>, Seq<char>)>),
>;

/// An empty router, from `matchit::Router::new`. Trusted: it holds no
/// routes.
#[verifier::external_body]
fn router_new() -> (r: matchit::Router<u8>)
    ensures
        router_routes(r) == Seq::<(Seq<char>, u8)>::empty(),
{
    matchit::Router::new()
}

/// The longest route that `router_insert` takes. `matchit` panics on a
/// route with 26 or more parameters, and each parameter takes at least three
/// characters (`{`, a name, `}`), so a route this long has at most 25.
pub const MAX_ROUTE_LEN: usize = 77;

/// Adds a route with `matchit::Router::insert`. Trusted: it succeeds as
/// `route_insert_ok` says, and then holds the route after the others. What
/// a refused insertion leaves in the router is not stated.
#[verifier::external_body]
fn router_insert(router: &mut matchit::Router<u8>, route: &str, value: u8) -> (r: bool)
    requires
        route@.len() <= MAX_ROUTE_LEN,
    ensures
        r == route_insert_ok(router_routes(*old(router)), route@),
        r ==> router_routes(*final(router)) == router_routes(*old(router)).push((route@, value)),
{
    router.insert(route, value).is_ok()
}

/// Matches a path with `matchit::Router::at`. Trusted: the match is
/// `route_lookup` of the router's routes and the path, its parameters
/// listed as `Params::iter` gives them.
#[verifier::external_body]
fn router_at(router: &matchit::Router<u8>, path: &str) -> (r: Option<(u8, Vec<(String, String)>)>)
    ensures
        match route_lookup(router_routes(*router), path@) {
            None => r is None,
            Some((v, ps)) => r matches Some((rv, rps)) && rv == v && pairs_view(rps) == ps,
        },
{
    match router.at(path) {
        Ok(m) => Some((*m.value, m.params.iter().map(|(k, v)| (k.to_owned(), v.to_owned())).collect())),
        Err(_) => None,
    }
}

/// A list of string pairs by its values.
pub open spec fn pairs_view(ps: Vec<(String, String)>) -> Seq<(Seq<char>, Seq<char>)> {
    ps@.map_values(|p: (String, String)| (p.0@, p.1@))
}

pub const USER_INFO_ROUTE: &'static str = "/user-info/{pubkey}/{deviceToken}";

pub const USER_SETTING_ROUTE: &'static str = "/user-info/{pubkey}/{deviceToken}/preference";

/// The value under which the user info route is stored.
pub const ROUTE_USER_INFO: u8 = 0;

/// The value under which the user setting route is stored.
pub const ROUTE_USER_SETTING: u8 = 1;

/// The routes of the API, or `None` where the router refuses them.
pub open spec fn api_routes() -> Option<Seq<(Seq<char>, u8)>> {
    let first = seq![(USER_INFO_ROUTE@, ROUTE_USER_INFO)];
    if route_insert_ok(Seq::empty(), USER_INFO_ROUTE@) && route_insert_ok(
        first,
        USER_SETTING_ROUTE@,
    ) {
        Some(first.push((USER_SETTING_ROUTE@, ROUTE_USER_SETTING)))
    } else {
        None
    }
}

fn build_router() -> (r: Option<matchit::Router<u8>>)
    ensures
        match api_routes() {
            Some(routes) => r matches Some(router) && router_routes(router) == routes,
            None => r is None,
        },
{
    proof {
        reveal_strlit("/user-info/{pubkey}/{deviceToken}");
        reveal_strlit("/user-info/{pubkey}/{deviceToken}/preference");
    }
    let mut router = router_new();
    if !router_insert(&mut router, USER_INFO_ROUTE, ROUTE_USER_INFO) {
        return None;
    }
    if !router_insert(&mut router, USER_SETTING_ROUTE, ROUTE_USER_SETTING) {
        return None;
    }
    Some(router)
}

// MARK: - Types
/// A notification service that a device registers with.
#[derive(PartialEq, Eq, Structural, Clone, Copy, Debug)]
pub enum NotificationBackend {
    Apns,
    Fcm,
}

/// The backend that a `backend` query value names.
pub open spec fn backend_named(name: Seq<char>) -> Option<NotificationBackend> {
    if name == "apns"@ {
        Some(NotificationBackend::Apns)
    } else if name == "fcm"@ {
        Some(NotificationBackend::Fcm)
    } else {
        None
    }
}

impl NotificationBackend {
    /// The backend that `name` names: `apns` or `fcm`.
    pub fn from_name(name: &str) -> (r: Option<NotificationBackend>)
        ensures
            r == backend_named(name@),
    {
        if str_eq(name, "apns") {
            Some(NotificationBackend::Apns)
        } else if str_eq(name, "fcm") {
            Some(NotificationBackend::Fcm)
        } else {
            None
        }
    }
}

/// The errors that a request is answered with `400 Bad Request` or
/// `401 Unauthorized` for.
pub enum APIError {
    MissingParameter(String),
    InvalidParameter(String),
    AuthenticationError(String),
}

pub enum APIErrorView {
    MissingParameter(Seq<char>),
    InvalidParameter(Seq<char>),
    AuthenticationError(Seq<char>),
}

impl View for APIError {
    type V = APIErrorView;

    open spec fn view(&self) -> APIErrorView {
        match self {
            APIError::MissingParameter(s) => APIErrorView::MissingParameter(s@),
            APIError::InvalidParameter(s) => APIErrorView::InvalidParameter(s@),
            APIError::AuthenticationError(s) => APIErrorView::AuthenticationError(s@),
        }
    }
}

/// The text of an error.
pub open spec fn api_error_message(e: APIErrorView) -> Seq<char> {
    match e {
        APIErrorView::MissingParameter(p) => "Missing required parameter "@ + p,
        APIErrorView::InvalidParameter(p) => "Invalid parameter "@ + p,
        APIErrorView::AuthenticationError(m) => "Authentication error: "@ + m,
    }
}

impl APIError {
    /// The text of the error.
    pub fn message(&self) -> (r: String)
        ensures
            r@ == api_error_message(self@),
    {
        match self {
            APIError::MissingParameter(p) => {
                let mut r = "Missing required parameter ".to_owned();
                r.append(p.as_str());
                r
            },
            APIError::InvalidParameter(p) => {
                let mut r = "Invalid parameter ".to_owned();
                r.append(p.as_str());
                r
            },
            APIError::AuthenticationError(m) => {
                let mut r = "Authentication error: ".to_owned();
                r.append(m.as_str());
                r
            },
        }
    }
}

/// Why handling a request failed: an error of the API, or anything else,
/// which is answered with `500 Internal Server Error`.
pub enum RequestError {
    Api(APIError),
    Internal,
}

pub enum RequestErrorView {
    Api(APIErrorView),
    Internal,
}

impl View for RequestError {
    type V = RequestErrorView;

    open spec fn view(&self) -> RequestErrorView {
        match self {
            RequestError::Api(e) => RequestErrorView::Api(e@),
            RequestError::Internal => RequestErrorView::Internal,
        }
    }
}

/// The JSON body of a response.
pub enum ResponseBody {
    /// `{"error": <error>}`
    Error(String),
    /// `{"error": "Unauthorized", "message": <message>}`
    Unauthorized(String),
    /// `{"message": <message>}`
    Message(String),
    /// `{"error": "Internal server error", "message": "Case ID: <id>"}`,
    /// with a fresh case id.
    InternalError,
    /// A JSON document, as text.
    Json(String),
}

pub enum ResponseBodyView {
    Error(Seq<char>),
    Unauthorized(Seq<char>),
    Message(Seq<char>),
    InternalError,
    Json(Seq<char>),
}

impl View for ResponseBody {
    type V = ResponseBodyView;

    open spec fn view(&self) -> ResponseBodyView {
        match self {
            ResponseBody::Error(s) => ResponseBodyView::Error(s@),
            ResponseBody::Unauthorized(s) => ResponseBodyView::Unauthorized(s@),
            ResponseBody::Message(s) => ResponseBodyView::Message(s@),
            ResponseBody::InternalError => ResponseBodyView::InternalError,
            ResponseBody::Json(s) => ResponseBodyView::Json(s@),
        }
    }
}

/// A response of the API: an HTTP status code and a JSON body.
pub struct APIResponse {
    pub status: u16,
    pub body: ResponseBody,
}

pub struct APIResponseView {
    pub status: u16,
    pub body: ResponseBodyView,
}

impl View for APIResponse {
    type V = APIResponseView;

    open spec fn view(&self) -> APIResponseView {
        APIResponseView { status: self.status, body: self.body@ }
    }
}

pub const STATUS_OK: u16 = 200;

pub const STATUS_BAD_REQUEST: u16 = 400;

pub const STATUS_UNAUTHORIZED: u16 = 401;

pub const STATUS_NOT_FOUND: u16 = 404;

pub const STATUS_INTERNAL_SERVER_ERROR: u16 = 500;

/// What the notification backend is asked to do for a request.
pub enum BackendAction {
    /// Register the device for the user, unless it is registered already.
    SaveUserDeviceInfo { pubkey: Vec<u8>, device_token: String, backend: NotificationBackend },
    /// Unregister the device.
    RemoveUserDeviceInfo { pubkey: Vec<u8>, device_token: String },
    /// Store the notification settings that the JSON document holds.
    SaveUserNotificationSettings { pubkey: Vec<u8>, device_token: String, settings_json: Vec<u8> },
    /// Read the notification settings of the device.
    GetUserNotificationSettings { pubkey: Vec<u8>, device_token: String },
}

pub enum ActionView {
    SaveUserDeviceInfo { pubkey: Seq<u8>, device_token: Seq<char>, backend: NotificationBackend },
    RemoveUserDeviceInfo { pubkey: Seq<u8>, device_token: Seq<char> },
    SaveUserNotificationSettings { pubkey: Seq<u8>, device_token: Seq<char>, settings_json: Seq<u8> },
    GetUserNotificationSettings { pubkey: Seq<u8>, device_token: Seq<char> },
}

impl View for BackendAction {
    type V = ActionView;

    open spec fn view(&self) -> ActionView {
        match self {
            BackendAction::SaveUserDeviceInfo { pubkey, device_token, backend } =>
                ActionView::SaveUserDeviceInfo {
                pubkey: pubkey@,
                device_token: device_token@,
                backend: *backend,
            },
            BackendAction::RemoveUserDeviceInfo { pubkey, device_token } =>
                ActionView::RemoveUserDeviceInfo { pubkey: pubkey@, device_token: device_token@ },
            BackendAction::SaveUserNotificationSettings { pubkey, device_token, settings_json } =>
                ActionView::SaveUserNotificationSettings {
                pubkey: pubkey@,
                device_token: device_token@,
                settings_json: settings_json@,
            },
            BackendAction::GetUserNotificationSettings { pubkey, device_token } =>
                ActionView::GetUserNotificationSettings {
                pubkey: pubkey@,
                device_token: device_token@,
            },
        }
    }
}

/// How the notification backend did with an action.
pub enum ActionOutcome {
    /// The action was carried out.
    Done,
    /// The settings that were read, as a JSON document.
    Settings(String),
    /// The JSON document does not hold notification settings.
    InvalidSettings,
    /// The backend failed.
    Failed,
}

pub enum ActionOutcomeView {
    Done,
    Settings(Seq<char>),
    InvalidSettings,
    Failed,
}

impl View for ActionOutcome {
    type V = ActionOutcomeView;

    open spec fn view(&self) -> ActionOutcomeView {
        match self {
            ActionOutcome::Done => ActionOutcomeView::Done,
            ActionOutcome::Settings(s) => ActionOutcomeView::Settings(s@),
            ActionOutcome::InvalidSettings => ActionOutcomeView::InvalidSettings,
            ActionOutcome::Failed => ActionOutcomeView::Failed,
        }
    }
}

/// What handling a request comes to: a response, or an action for the
/// notification backend whose outcome gives the response.
pub enum Step {
    Respond(APIResponse),
    Perform(BackendAction),
}

pub enum StepView {
    Respond(APIResponseView),
    Perform(ActionView),
}

impl View for Step {
    type V = StepView;

    open spec fn view(&self) -> StepView {
        match self {
            Step::Respond(r) => StepView::Respond(r@),
            Step::Perform(a) => StepView::Perform(a@),
        }
    }
}

/// An HTTP request as the server received it.
pub struct HttpRequest {
    /// The method, such as `PUT`.
    pub method: String,
    /// The path of the URI.
    pub path: String,
    /// The path and query of the URI, where it has them.
    pub path_and_query: Option<String>,
    /// The query of the URI, where it has one.
    pub query: Option<String>,
    /// The raw value of the `Authorization` header, where there is one.
    pub authorization: Option<Vec<u8>>,
    /// The body.
    pub body: Vec<u8>,
}

/// A request after authentication.
pub struct ParsedRequest {
    pub uri: String,
    pub method: String,
    pub body_bytes: Option<Vec<u8>>,
    /// The public key (32 bytes) that signed the authorization note.
    pub authorized_pubkey: Vec<u8>,
    /// The query's name and value pairs.
    pub query: Vec<(String, String)>,
}

pub struct ParsedRequestView {
    pub uri: Seq<char>,
    pub method: Seq<char>,
    pub body: Option<Seq<u8>>,
    pub authorized_pubkey: Seq<u8>,
    pub query: Seq<(Seq<char>, Seq<char>)>,
}

impl View for ParsedRequest {
    type V = ParsedRequestView;

    open spec fn view(&self) -> ParsedRequestView {
        ParsedRequestView {
            uri: self.uri@,
            method: self.method@,
            body: body_view(self.body_bytes),
            authorized_pubkey: self.authorized_pubkey@,
            query: pairs_view(self.query),
        }
    }
}

impl ParsedRequest {
    /// The JSON document of the body: the body where it is JSON, the empty
    /// object `{}` where there is none, and an internal error otherwise.
    pub fn body_json(&self) -> (r: Result<Vec<u8>, RequestError>)
        ensures
            match r {
                Ok(j) => json_body(self@.body) == Ok::<Seq<u8>, RequestErrorView>(j@),
                Err(e) => json_body(self@.body) == Err::<Seq<u8>, RequestErrorView>(e@),
            },
    {
        match &self.body_bytes {
            Some(body_bytes) => {
                if parse_json(body_bytes.as_slice()).is_none() {
                    return Err(RequestError::Internal);
                }
                Ok(body_bytes.clone())
            },
            None => {
                let v: Vec<u8> = vec![123u8, 125u8];
                assert(v@ =~= empty_json_object());
                Ok(v)
            },
        }
    }
}

/// The API server's request handler.
#[derive(Clone)]
pub struct APIHandler {
    base_url: String,
    supported_backends: Vec<NotificationBackend>,
}

// MARK: - Specification
/// The value of the first pair named `key`.
pub open spec fn first_value(pairs: Seq<(Seq<char>, Seq<char>)>, key: Seq<char>) -> Option<
    Seq<char>,
>
    decreases pairs.len(),
{
    if pairs.len() == 0 {
        None
    } else if pairs[0].0 == key {
        Some(pairs[0].1)
    } else {
        first_value(pairs.drop_first(), key)
    }
}

/// A URL parameter, percent-decoded.
pub open spec fn required_param(params: Seq<(Seq<char>, Seq<char>)>, key: Seq<char>) -> Result<
    Seq<char>,
    APIErrorView,
> {
    match first_value(params, key) {
        None => Err(APIErrorView::MissingParameter(key)),
        Some(v) => match url_percent_decode(v) {
            None => Err(APIErrorView::InvalidParameter(key)),
            Some(d) => Ok(d),
        },
    }
}

/// The public key that a URL parameter names, which must be the one that
/// authorized the request.
pub open spec fn checked_pubkey(text: Seq<char>, authorized: Seq<u8>) -> Result<
    Seq<u8>,
    APIErrorView,
> {
    match hex_decode(text) {
        Some(key) => if key.len() != 32 {
            Err(APIErrorView::InvalidParameter("pubkey"@))
        } else if key != authorized {
            Err(APIErrorView::AuthenticationError("pubkey doesnt match authorized pubkey"@))
        } else {
            Ok(key)
        },
        None => Err(APIErrorView::InvalidParameter("pubkey"@)),
    }
}

/// The device token and the checked public key of a request's URL.
pub open spec fn device_and_pubkey(
    params: Seq<(Seq<char>, Seq<char>)>,
    authorized: Seq<u8>,
) -> Result<(Seq<char>, Seq<u8>), APIErrorView> {
    match required_param(params, "deviceToken"@) {
        Err(e) => Err(e),
        Ok(token) => match required_param(params, "pubkey"@) {
            Err(e) => Err(e),
            Ok(text) => match checked_pubkey(text, authorized) {
                Err(e) => Err(e),
                Ok(key) => Ok((token, key)),
            },
        },
    }
}

pub open spec fn respond(status: u16, body: ResponseBodyView) -> StepView {
    StepView::Respond(APIResponseView { status, body })
}

/// `PUT /user-info/{pubkey}/{deviceToken}`: register a device.
pub open spec fn user_info_step(
    req: ParsedRequestView,
    params: Seq<(Seq<char>, Seq<char>)>,
    supported: Seq<NotificationBackend>,
) -> Result<StepView, RequestErrorView> {
    match device_and_pubkey(params, req.authorized_pubkey) {
        Err(e) => Err(RequestErrorView::Api(e)),
        Ok((token, key)) => {
            let name = match first_value(req.query, "backend"@) {
                Some(b) => b,
                None => "apns"@,
            };
            match backend_named(name) {
                None => Ok(respond(STATUS_BAD_REQUEST, ResponseBodyView::Error("backend is invalid"@))),
                Some(backend) => if !supported.contains(backend) {
                    Ok(respond(STATUS_BAD_REQUEST, ResponseBodyView::Error("Backend not supported"@)))
                } else {
                    Ok(
                        StepView::Perform(
                            ActionView::SaveUserDeviceInfo { pubkey: key, device_token: token, backend },
                        ),
                    )
                },
            }
        },
    }
}

/// `DELETE /user-info/{pubkey}/{deviceToken}`: unregister a device.
pub open spec fn user_info_remove_step(
    req: ParsedRequestView,
    params: Seq<(Seq<char>, Seq<char>)>,
) -> Result<StepView, RequestErrorView> {
    match device_and_pubkey(params, req.authorized_pubkey) {
        Err(e) => Err(RequestErrorView::Api(e)),
        Ok((token, key)) => Ok(
            StepView::Perform(ActionView::RemoveUserDeviceInfo { pubkey: key, device_token: token }),
        ),
    }
}

/// The JSON document that stands for an absent body.
pub open spec fn empty_json_object() -> Seq<u8> {
    seq![123u8, 125u8]
}

/// The JSON document of a request's body: the body where it is JSON, the
/// empty object `{}` where there is none, and an internal error otherwise.
pub open spec fn json_body(body: Option<Seq<u8>>) -> Result<Seq<u8>, RequestErrorView> {
    match body {
        Some(b) => if json_is_valid(b) {
            Ok(b)
        } else {
            Err(RequestErrorView::Internal)
        },
        None => Ok(empty_json_object()),
    }
}

/// `PUT /user-info/{pubkey}/{deviceToken}/preference`: store settings.
pub open spec fn set_user_settings_step(
    req: ParsedRequestView,
    params: Seq<(Seq<char>, Seq<char>)>,
) -> Result<StepView, RequestErrorView> {
    match device_and_pubkey(params, req.authorized_pubkey) {
        Err(e) => Err(RequestErrorView::Api(e)),
        Ok((token, key)) => match json_body(req.body) {
            Err(e) => Err(e),
            Ok(settings_json) => Ok(
                StepView::Perform(
                    ActionView::SaveUserNotificationSettings {
                        pubkey: key,
                        device_token: token,
                        settings_json,
                    },
                ),
            ),
        },
    }
}

/// `GET /user-info/{pubkey}/{deviceToken}/preference`: read settings.
pub open spec fn get_user_settings_step(
    req: ParsedRequestView,
    params: Seq<(Seq<char>, Seq<char>)>,
) -> Result<StepView, RequestErrorView> {
    match device_and_pubkey(params, req.authorized_pubkey) {
        Err(e) => Err(RequestErrorView::Api(e)),
        Ok((token, key)) => Ok(
            StepView::Perform(
                ActionView::GetUserNotificationSettings { pubkey: key, device_token: token },
            ),
        ),
    }
}

pub open spec fn not_found() -> StepView {
    respond(STATUS_NOT_FOUND, ResponseBodyView::Error("Not found"@))
}

/// The router: the endpoint that the path and the method select, or
/// `404 Not Found`.
pub open spec fn parsed_request_step(req: ParsedRequestView, supported: Seq<NotificationBackend>) -> Result<
    StepView,
    RequestErrorView,
> {
    match api_routes() {
        None => Err(RequestErrorView::Internal),
        Some(routes) => match route_lookup(routes, req.uri) {
            None => Ok(not_found()),
            Some((route, params)) => if route == ROUTE_USER_INFO && req.method == "PUT"@ {
                user_info_step(req, params, supported)
            } else if route == ROUTE_USER_INFO && req.method == "DELETE"@ {
                user_info_remove_step(req, params)
            } else if route == ROUTE_USER_SETTING && req.method == "GET"@ {
                get_user_settings_step(req, params)
            } else if route == ROUTE_USER_SETTING && req.method == "PUT"@ {
                set_user_settings_step(req, params)
            } else {
                Ok(not_found())
            },
        },
    }
}

/// Whether `b` may stand in a header value that is read as text: a
/// visible ASCII character or a tab.
pub open spec fn is_visible_ascii(b: u8) -> bool {
    (32 <= b && b < 127) || b == 9
}

/// Whether a header value can be read as text: visible ASCII and tabs.
pub open spec fn header_is_text(h: Seq<u8>) -> bool {
    forall|i: int| 0 <= i < h.len() ==> is_visible_ascii(#[trigger] h[i])
}

/// The body as the request handler sees it: `None` when it is empty.
pub open spec fn body_of(body: Seq<u8>) -> Option<Seq<u8>> {
    if body.len() == 0 {
        None
    } else {
        Some(body)
    }
}

/// The full URL of a request: the base URL, then the path and query.
pub open spec fn request_url(base_url: Seq<char>, path_and_query: Option<String>) -> Seq<char> {
    base_url + match path_and_query {
        Some(p) => p@,
        None => ""@,
    }
}

/// The query's pairs.
pub open spec fn query_pairs(query: Option<String>) -> Seq<(Seq<char>, Seq<char>)> {
    match query {
        Some(q) => form_urlencoded_pairs(vstd::utf8::encode_utf8(q@)),
        None => seq![],
    }
}

/// Authentication of a request at time `now`: the request as the router
/// sees it, or why it was refused.
pub open spec fn authenticated_request(base_url: Seq<char>, req: HttpRequest, now: u64) -> Result<
    ParsedRequestView,
    RequestErrorView,
> {
    match req.authorization {
        None => Err(
            RequestErrorView::Api(
                APIErrorView::AuthenticationError("Authorization header not found"@),
            ),
        ),
        Some(h) => if !header_is_text(h@) {
            Err(RequestErrorView::Internal)
        } else {
            match nip98_outcome(
                vstd::utf8::decode_utf8(h@),
                request_url(base_url, req.path_and_query),
                req.method@,
                body_of(req.body@),
                now,
            ) {
                Err(f) => Err(
                    RequestErrorView::Api(APIErrorView::AuthenticationError(failure_message(f))),
                ),
                Ok(note) => Ok(
                    ParsedRequestView {
                        uri: req.path@,
                        method: req.method@,
                        body: body_of(req.body@),
                        authorized_pubkey: note.pubkey,
                        query: query_pairs(req.query),
                    },
                ),
            }
        },
    }
}

/// The response to a failed request.
pub open spec fn error_response(e: RequestErrorView) -> APIResponseView {
    match e {
        RequestErrorView::Api(APIErrorView::AuthenticationError(m)) => APIResponseView {
            status: STATUS_UNAUTHORIZED,
            body: ResponseBodyView::Unauthorized(m),
        },
        RequestErrorView::Api(other) => APIResponseView {
            status: STATUS_BAD_REQUEST,
            body: ResponseBodyView::Error(api_error_message(other)),
        },
        RequestErrorView::Internal => APIResponseView {
            status: STATUS_INTERNAL_SERVER_ERROR,
            body: ResponseBodyView::InternalError,
        },
    }
}

/// The step that a request comes to at time `now`, or why handling it
/// failed.
pub open spec fn request_outcome(
    base_url: Seq<char>,
    supported: Seq<NotificationBackend>,
    req: HttpRequest,
    now: u64,
) -> Result<StepView, RequestErrorView> {
    match authenticated_request(base_url, req, now) {
        Err(e) => Err(e),
        Ok(parsed) => parsed_request_step(parsed, supported),
    }
}

/// What a request comes to at time `now`, for a handler with the given base
/// URL and supported backends.
pub open spec fn request_step(
    base_url: Seq<char>,
    supported: Seq<NotificationBackend>,
    req: HttpRequest,
    now: u64,
) -> StepView {
    match request_outcome(base_url, supported, req, now) {
        Ok(step) => step,
        Err(e) => StepView::Respond(error_response(e)),
    }
}

/// The response once the backend has carried out an action: the message
/// of the endpoint, the settings that were read, `400 Bad Request` for
/// settings that are not valid, and `500 Internal Server Error` when the
/// backend failed (or reported an outcome that does not fit the action).
pub open spec fn action_response(action: ActionView, outcome: ActionOutcomeView) -> APIResponseView {
    let internal = APIResponseView {
        status: STATUS_INTERNAL_SERVER_ERROR,
        body: ResponseBodyView::InternalError,
    };
    match (action, outcome) {
        (ActionView::SaveUserDeviceInfo { .. }, ActionOutcomeView::Done) => APIResponseView {
            status: STATUS_OK,
            body: ResponseBodyView::Message("User info saved successfully"@),
        },
        (ActionView::RemoveUserDeviceInfo { .. }, ActionOutcomeView::Done) => APIResponseView {
            status: STATUS_OK,
            body: ResponseBodyView::Message("User info removed successfully"@),
        },
        (ActionView::SaveUserNotificationSettings { .. }, ActionOutcomeView::Done) => APIResponseView {
            status: STATUS_OK,
            body: ResponseBodyView::Message("User settings saved successfully"@),
        },
        (
            ActionView::SaveUserNotificationSettings { .. },
            ActionOutcomeView::InvalidSettings,
        ) => APIResponseView {
            status: STATUS_BAD_REQUEST,
            body: ResponseBodyView::Error("Invalid settings"@),
        },
        (
            ActionView::GetUserNotificationSettings { .. },
            ActionOutcomeView::Settings(json),
        ) => APIResponseView { status: STATUS_OK, body: ResponseBodyView::Json(json) },
        _ => internal,
    }
}

// MARK: - Laws
/// The user that an action is carried out for.
pub open spec fn action_pubkey(a: ActionView) -> Seq<u8> {
    match a {
        ActionView::SaveUserDeviceInfo { pubkey, .. } => pubkey,
        ActionView::RemoveUserDeviceInfo { pubkey, .. } => pubkey,
        ActionView::SaveUserNotificationSettings { pubkey, .. } => pubkey,
        ActionView::GetUserNotificationSettings { pubkey, .. } => pubkey,
    }
}

/// Whether `note` is the NIP-98 note that authorizes `req` at time `now`.
pub open spec fn authorizing_note(
    base_url: Seq<char>,
    req: HttpRequest,
    now: u64,
    note: crate::nostr_event::EventView,
) -> bool {
    req.authorization matches Some(h) && nip98_outcome(
        vstd::utf8::decode_utf8(h@),
        request_url(base_url, req.path_and_query),
        req.method@,
        body_of(req.body@),
        now,
    ) == Ok::<crate::nostr_event::EventView, crate::nip98_auth::Nip98Failure>(note)
}

/// The notification backend only ever acts for the user who signed the
/// request's NIP-98 authorization: every action that a request leads to is
/// for the public key of the note that authorizes the request.
pub proof fn lemma_actions_are_for_the_authorizing_key(
    base_url: Seq<char>,
    supported: Seq<NotificationBackend>,
    req: HttpRequest,
    now: u64,
)
    ensures
        request_step(base_url, supported, req, now) matches StepView::Perform(a) ==> exists|
            note: crate::nostr_event::EventView,
        |
            #[trigger] authorizing_note(base_url, req, now, note) && action_pubkey(a)
                == note.pubkey && note.created_at <= now + 30 && now <= note.created_at + 60,
{
    if let Ok(parsed) = authenticated_request(base_url, req, now) {
        let h = req.authorization->0;
        let note = nip98_outcome(
            vstd::utf8::decode_utf8(h@),
            request_url(base_url, req.path_and_query),
            req.method@,
            body_of(req.body@),
            now,
        )->Ok_0;
        crate::nip98_auth::lemma_accepted_note(
            vstd::utf8::decode_utf8(h@),
            request_url(base_url, req.path_and_query),
            req.method@,
            body_of(req.body@),
            now,
        );
        assert(authorizing_note(base_url, req, now, note));
        assert(parsed.authorized_pubkey == note.pubkey);
        if let Some(routes) = api_routes() {
            if let Some((route, params)) = route_lookup(routes, parsed.uri) {
                if let Ok((token, key)) = device_and_pubkey(params, parsed.authorized_pubkey) {
                    assert(key == parsed.authorized_pubkey);
                }
            }
        }
    }
}

/// Why the NIP-98 check refuses a request's authorization header, where it
/// has one that reads as text.
pub open spec fn nip98_refusal(base_url: Seq<char>, req: HttpRequest, now: u64) -> Option<
    crate::nip98_auth::Nip98Failure,
> {
    match req.authorization {
        Some(h) => if header_is_text(h@) {
            match nip98_outcome(
                vstd::utf8::decode_utf8(h@),
                request_url(base_url, req.path_and_query),
                req.method@,
                body_of(req.body@),
                now,
            ) {
                Err(f) => Some(f),
                Ok(_) => None,
            }
        } else {
            None
        },
        None => None,
    }
}

/// A request without a valid NIP-98 authorization is answered with
/// `401 Unauthorized` and the reason, and nothing is done for it.
pub proof fn lemma_unauthenticated_requests_are_refused(
    base_url: Seq<char>,
    supported: Seq<NotificationBackend>,
    req: HttpRequest,
    now: u64,
)
    ensures
        req.authorization is None ==> request_step(base_url, supported, req, now) == respond(
            STATUS_UNAUTHORIZED,
            ResponseBodyView::Unauthorized("Authorization header not found"@),
        ),
        nip98_refusal(base_url, req, now) matches Some(f) ==> request_step(
            base_url,
            supported,
            req,
            now,
        ) == respond(STATUS_UNAUTHORIZED, ResponseBodyView::Unauthorized(failure_message(f))),
{
}


pub open spec fn internal_error_response() -> APIResponseView {
    APIResponseView { status: STATUS_INTERNAL_SERVER_ERROR, body: ResponseBodyView::InternalError }
}

/// A request whose handling fails for a reason other than an error of the
/// API, and an action that the backend fails to carry out, are answered
/// with `500 Internal Server Error` and a body that carries none of the
/// failure's text (only a fresh case id).
pub proof fn lemma_internal_errors_hide_their_cause(
    base_url: Seq<char>,
    supported: Seq<NotificationBackend>,
    req: HttpRequest,
    now: u64,
    action: ActionView,
)
    ensures
        request_outcome(base_url, supported, req, now) == Err::<StepView, RequestErrorView>(
            RequestErrorView::Internal,
        ) ==> request_step(base_url, supported, req, now) == StepView::Respond(
            internal_error_response(),
        ),
        error_response(RequestErrorView::Internal) == internal_error_response(),
        action_response(action, ActionOutcomeView::Failed) == internal_error_response(),
{
}

/// The backend that a registration names: the first `backend` query value,
/// `apns` where there is none.
pub open spec fn requested_backend_name(query: Seq<(Seq<char>, Seq<char>)>) -> Seq<char> {
    match first_value(query, "backend"@) {
        Some(b) => b,
        None => "apns"@,
    }
}

/// Registering a device whose URL names the authorized key: without a
/// `backend` query value the device is saved for APNs once (where APNs is
/// supported), and is then answered with `200` and the saved message; a
/// backend name that is not known is answered with `400 backend is
/// invalid`, and a known one that is not supported with `400 Backend not
/// supported`, and neither asks anything of the backend.
pub proof fn lemma_user_info_registration(
    req: ParsedRequestView,
    params: Seq<(Seq<char>, Seq<char>)>,
    supported: Seq<NotificationBackend>,
)
    ensures
        device_and_pubkey(params, req.authorized_pubkey) is Ok && first_value(req.query, "backend"@)
            is None && supported.contains(NotificationBackend::Apns) ==> {
            let (token, key) = device_and_pubkey(params, req.authorized_pubkey)->Ok_0;
            let save = ActionView::SaveUserDeviceInfo {
                pubkey: key,
                device_token: token,
                backend: NotificationBackend::Apns,
            };
            &&& key == req.authorized_pubkey
            &&& user_info_step(req, params, supported) == Ok::<StepView, RequestErrorView>(
                StepView::Perform(save),
            )
            &&& action_response(save, ActionOutcomeView::Done) == APIResponseView {
                status: STATUS_OK,
                body: ResponseBodyView::Message("User info saved successfully"@),
            }
        },
        device_and_pubkey(params, req.authorized_pubkey) is Ok && backend_named(
            requested_backend_name(req.query),
        ) is None ==> user_info_step(req, params, supported) == Ok::<StepView, RequestErrorView>(
            respond(STATUS_BAD_REQUEST, ResponseBodyView::Error("backend is invalid"@)),
        ),
        device_and_pubkey(params, req.authorized_pubkey) is Ok && backend_named(
            requested_backend_name(req.query),
        ) is Some && !supported.contains(backend_named(requested_backend_name(req.query))->0)
            ==> user_info_step(req, params, supported) == Ok::<StepView, RequestErrorView>(
            respond(STATUS_BAD_REQUEST, ResponseBodyView::Error("Backend not supported"@)),
        ),
{
    reveal_strlit("apns");
    reveal_strlit("fcm");
}

/// Removing a device whose URL names the authorized key asks the backend
/// to remove it once; the answer is `200` and the removed message, or `500`
/// when the backend fails.
pub proof fn lemma_user_info_removal(
    req: ParsedRequestView,
    params: Seq<(Seq<char>, Seq<char>)>,
)
    ensures
        device_and_pubkey(params, req.authorized_pubkey) is Ok ==> {
            let (token, key) = device_and_pubkey(params, req.authorized_pubkey)->Ok_0;
            let remove = ActionView::RemoveUserDeviceInfo { pubkey: key, device_token: token };
            &&& key == req.authorized_pubkey
            &&& user_info_remove_step(req, params) == Ok::<StepView, RequestErrorView>(
                StepView::Perform(remove),
            )
            &&& action_response(remove, ActionOutcomeView::Done) == APIResponseView {
                status: STATUS_OK,
                body: ResponseBodyView::Message("User info removed successfully"@),
            }
            &&& action_response(remove, ActionOutcomeView::Failed) == internal_error_response()
        },
{
}

/// Storing settings for a device whose URL names the authorized key asks
/// the backend to store the body's JSON document (`{}` without a body); the
/// answer is `400 Invalid settings` where the document does not hold
/// settings, and `200` and the saved message once they are stored. A body
/// that is not JSON is an internal error, and nothing is asked.
pub proof fn lemma_user_settings_storage(
    req: ParsedRequestView,
    params: Seq<(Seq<char>, Seq<char>)>,
)
    ensures
        device_and_pubkey(params, req.authorized_pubkey) is Ok && json_body(req.body) is Ok ==> {
            let (token, key) = device_and_pubkey(params, req.authorized_pubkey)->Ok_0;
            let save = ActionView::SaveUserNotificationSettings {
                pubkey: key,
                device_token: token,
                settings_json: json_body(req.body)->Ok_0,
            };
            &&& key == req.authorized_pubkey
            &&& set_user_settings_step(req, params) == Ok::<StepView, RequestErrorView>(
                StepView::Perform(save),
            )
            &&& action_response(save, ActionOutcomeView::InvalidSettings) == APIResponseView {
                status: STATUS_BAD_REQUEST,
                body: ResponseBodyView::Error("Invalid settings"@),
            }
            &&& action_response(save, ActionOutcomeView::Done) == APIResponseView {
                status: STATUS_OK,
                body: ResponseBodyView::Message("User settings saved successfully"@),
            }
        },
        device_and_pubkey(params, req.authorized_pubkey) is Ok && json_body(req.body) is Err
            ==> set_user_settings_step(req, params) == Err::<StepView, RequestErrorView>(
            RequestErrorView::Internal,
        ),
        req.body is None ==> json_body(req.body) == Ok::<Seq<u8>, RequestErrorView>(
            empty_json_object(),
        ),
{
}

/// Reading the settings of a device whose URL names the authorized key
/// asks the backend to read them, and only that; the answer is `200` with
/// the settings' JSON, or `500` when the backend fails.
pub proof fn lemma_user_settings_lookup(
    req: ParsedRequestView,
    params: Seq<(Seq<char>, Seq<char>)>,
    settings: Seq<char>,
)
    ensures
        device_and_pubkey(params, req.authorized_pubkey) is Ok ==> {
            let (token, key) = device_and_pubkey(params, req.authorized_pubkey)->Ok_0;
            let get = ActionView::GetUserNotificationSettings { pubkey: key, device_token: token };
            &&& key == req.authorized_pubkey
            &&& get_user_settings_step(req, params) == Ok::<StepView, RequestErrorView>(
                StepView::Perform(get),
            )
            &&& action_response(get, ActionOutcomeView::Settings(settings)) == APIResponseView {
                status: STATUS_OK,
                body: ResponseBodyView::Json(settings),
            }
            &&& action_response(get, ActionOutcomeView::Failed) == internal_error_response()
        },
{
}

/// Whether `status` is one that the API answers with: 200, 400, 401, 404
/// or 500.
pub open spec fn is_api_status(status: u16) -> bool {
    status == STATUS_OK || status == STATUS_BAD_REQUEST || status == STATUS_UNAUTHORIZED
        || status == STATUS_NOT_FOUND || status == STATUS_INTERNAL_SERVER_ERROR
}

/// Every response of the API has status 200, 400, 401, 404 or 500: those
/// that a request comes to directly, and those that follow an action of the
/// backend, whatever its outcome.
pub proof fn lemma_response_statuses(
    base_url: Seq<char>,
    supported: Seq<NotificationBackend>,
    req: HttpRequest,
    now: u64,
    action: ActionView,
    outcome: ActionOutcomeView,
)
    ensures
        request_step(base_url, supported, req, now) matches StepView::Respond(r) ==> is_api_status(
            r.status,
        ),
        is_api_status(action_response(action, outcome).status),
{
}

/// The device token that an action is about.
pub open spec fn action_device_token(a: ActionView) -> Seq<char> {
    match a {
        ActionView::SaveUserDeviceInfo { device_token, .. } => device_token,
        ActionView::RemoveUserDeviceInfo { device_token, .. } => device_token,
        ActionView::SaveUserNotificationSettings { device_token, .. } => device_token,
        ActionView::GetUserNotificationSettings { device_token, .. } => device_token,
    }
}

/// What every endpoint requires of the URL before it plans an action: the
/// `pubkey` parameter, percent-decoded, is the hex of the key that signed
/// the request, and the action is for that key and for the decoded
/// `deviceToken` parameter. A `pubkey` that is 64 hex digits of another
/// key is answered `401 pubkey doesnt match authorized pubkey`, and one
/// that is not 64 hex digits `400 Invalid parameter pubkey`, with no action.
pub proof fn lemma_endpoints_check_the_url_pubkey(
    req: ParsedRequestView,
    params: Seq<(Seq<char>, Seq<char>)>,
    supported: Seq<NotificationBackend>,
)
    ensures
        ({
            let steps = seq![
                user_info_step(req, params, supported),
                user_info_remove_step(req, params),
                set_user_settings_step(req, params),
                get_user_settings_step(req, params),
            ];
            forall|i: int|
                0 <= i < 4 ==> {
                    let step = #[trigger] steps[i];
                    &&& (step is Ok && step->Ok_0 is Perform) ==> {
                        let a = step->Ok_0->Perform_0;
                        &&& required_param(params, "pubkey"@) is Ok
                        &&& hex_decode(required_param(params, "pubkey"@)->Ok_0) == Some(action_pubkey(a))
                        &&& action_pubkey(a) == req.authorized_pubkey
                        &&& required_param(params, "deviceToken"@) == Ok::<Seq<char>, APIErrorView>(
                            action_device_token(a),
                        )
                    }
                    &&& (required_param(params, "deviceToken"@) is Ok && required_param(
                        params,
                        "pubkey"@,
                    ) is Ok && hex_decode(required_param(params, "pubkey"@)->Ok_0) is Some
                        && hex_decode(required_param(params, "pubkey"@)->Ok_0)->0.len() == 32
                        && hex_decode(required_param(params, "pubkey"@)->Ok_0)->0
                        != req.authorized_pubkey) ==> step == Err::<StepView, RequestErrorView>(
                        RequestErrorView::Api(
                            APIErrorView::AuthenticationError(
                                "pubkey doesnt match authorized pubkey"@,
                            ),
                        ),
                    )
                    &&& (required_param(params, "deviceToken"@) is Ok && required_param(
                        params,
                        "pubkey"@,
                    ) is Ok && !(hex_decode(required_param(params, "pubkey"@)->Ok_0) is Some
                        && hex_decode(required_param(params, "pubkey"@)->Ok_0)->0.len() == 32))
                        ==> step == Err::<StepView, RequestErrorView>(
                        RequestErrorView::Api(APIErrorView::InvalidParameter("pubkey"@)),
                    )
                }
        }),
{
    let steps = seq![
        user_info_step(req, params, supported),
        user_info_remove_step(req, params),
        set_user_settings_step(req, params),
        get_user_settings_step(req, params),
    ];
    assert(steps[0] == user_info_step(req, params, supported));
    assert(steps[1] == user_info_remove_step(req, params));
    assert(steps[2] == set_user_settings_step(req, params));
    assert(steps[3] == get_user_settings_step(req, params));
}

/// The value of the API route that `uri` matches, if any.
pub open spec fn matched_route(uri: Seq<char>) -> Option<u8> {
    match api_routes() {
        Some(routes) => match route_lookup(routes, uri) {
            Some((v, _)) => Some(v),
            None => None,
        },
        None => None,
    }
}

/// The method and route that each action comes from: a device is saved only
/// by `PUT` and removed only by `DELETE` on `/user-info/{pubkey}/{deviceToken}`,
/// settings are read only by `GET` and stored only by `PUT` on its
/// `/preference`; any other method on a matched route, and any path that
/// matches no route, is answered `404 Not found` with no action.
pub proof fn lemma_actions_come_from_their_route_and_method(
    req: ParsedRequestView,
    supported: Seq<NotificationBackend>,
)
    ensures
        api_routes() is Some ==> ({
            let found = matched_route(req.uri);
            let r = parsed_request_step(req, supported);
            &&& found is None ==> r == Ok::<StepView, RequestErrorView>(not_found())
            &&& (found is Some && found->0 == ROUTE_USER_INFO && req.method != "PUT"@ && req.method
                != "DELETE"@) ==> r == Ok::<StepView, RequestErrorView>(not_found())
            &&& (found is Some && found->0 == ROUTE_USER_SETTING && req.method != "GET"@
                && req.method != "PUT"@) ==> r == Ok::<StepView, RequestErrorView>(not_found())
            &&& (r is Ok && r->Ok_0 is Perform) ==> {
                let a = r->Ok_0->Perform_0;
                &&& found is Some
                &&& (a is SaveUserDeviceInfo ==> found->0 == ROUTE_USER_INFO && req.method == "PUT"@)
                &&& (a is RemoveUserDeviceInfo ==> found->0 == ROUTE_USER_INFO && req.method
                    == "DELETE"@)
                &&& (a is GetUserNotificationSettings ==> found->0 == ROUTE_USER_SETTING
                    && req.method == "GET"@)
                &&& (a is SaveUserNotificationSettings ==> found->0 == ROUTE_USER_SETTING
                    && req.method == "PUT"@)
            }
        }),
{
    reveal_strlit("PUT");
    reveal_strlit("GET");
    reveal_strlit("DELETE");
}

// MARK: - Implementation
/// The value of the first pair named `key`.
pub fn find_first_value(pairs: &Vec<(String, String)>, key: &str) -> (r: Option<String>)
    ensures
        match r {
            Some(v) => first_value(pairs_view(*pairs), key@) == Some(v@),
            None => first_value(pairs_view(*pairs), key@) is None,
        },
{
    let ghost all = pairs_view(*pairs);
    let mut i: usize = 0;
    assert(all.subrange(0, all.len() as int) =~= all);
    while i < pairs.len()
        invariant
            all == pairs_view(*pairs),
            i <= pairs@.len(),
            first_value(all, key@) == first_value(all.subrange(i as int, all.len() as int), key@),
        decreases pairs@.len() - i,
    {
        let ghost rest = all.subrange(i as int, all.len() as int);
        assert(rest[0] == (pairs@[i as int].0@, pairs@[i as int].1@));
        assert(rest.drop_first() =~= all.subrange(i + 1, all.len() as int));
        if str_eq(pairs[i].0.as_str(), key) {
            return Some(pairs[i].1.clone());
        }
        i = i + 1;
    }
    None
}

/// A URL parameter, percent-decoded.
pub fn get_required_param(params: &Vec<(String, String)>, key: &str) -> (r: Result<
    String,
    APIError,
>)
    ensures
        match r {
            Ok(v) => required_param(pairs_view(*params), key@) == Ok::<Seq<char>, APIErrorView>(v@),
            Err(e) => required_param(pairs_view(*params), key@) == Err::<Seq<char>, APIErrorView>(e@),
        },
{
    match find_first_value(params, key) {
        Some(token) => match percent_decode(token.as_str()) {
            Some(decoded) => Ok(decoded),
            None => Err(APIError::InvalidParameter(key.to_owned())),
        },
        None => Err(APIError::MissingParameter(key.to_owned())),
    }
}

/// Parses a public key from hex.
pub fn parse_pubkey(pubkey: &str) -> (r: Result<Vec<u8>, APIError>)
    ensures
        match r {
            Ok(k) => hex_decode(pubkey@) == Some(k@) && k@.len() == 32,
            Err(e) => !(hex_decode(pubkey@) is Some && hex_decode(pubkey@)->0.len() == 32)
                && e@ == APIErrorView::InvalidParameter("pubkey"@),
        },
{
    match public_key_from_hex(pubkey) {
        Some(k) => Ok(k),
        None => Err(APIError::InvalidParameter("pubkey".to_owned())),
    }
}

/// The public key that a URL parameter names, which must be the one that
/// authorized the request.
pub fn check_pubkey(pubkey: &str, req: &ParsedRequest) -> (r: Result<Vec<u8>, APIError>)
    ensures
        match r {
            Ok(k) => checked_pubkey(pubkey@, req.authorized_pubkey@) == Ok::<Seq<u8>, APIErrorView>(
                k@,
            ),
            Err(e) => checked_pubkey(pubkey@, req.authorized_pubkey@) == Err::<Seq<u8>, APIErrorView>(
                e@,
            ),
        },
{
    let key = parse_pubkey(pubkey)?;
    if !bytes_eq(key.as_slice(), req.authorized_pubkey.as_slice()) {
        Err(APIError::AuthenticationError("pubkey doesnt match authorized pubkey".to_owned()))
    } else {
        Ok(key)
    }
}

fn device_and_checked_pubkey(params: &Vec<(String, String)>, req: &ParsedRequest) -> (r: Result<
    (String, Vec<u8>),
    APIError,
>)
    ensures
        match r {
            Ok((t, k)) => device_and_pubkey(pairs_view(*params), req.authorized_pubkey@) == Ok::<
                (Seq<char>, Seq<u8>),
                APIErrorView,
            >((t@, k@)),
            Err(e) => device_and_pubkey(pairs_view(*params), req.authorized_pubkey@) == Err::<
                (Seq<char>, Seq<u8>),
                APIErrorView,
            >(e@),
        },
{
    let device_token = get_required_param(params, "deviceToken")?;
    let pubkey = get_required_param(params, "pubkey")?;
    let key = check_pubkey(pubkey.as_str(), req)?;
    Ok((device_token, key))
}

/// Whether `r` is the step or the error that `spec` gives.
pub open spec fn step_result_matches(
    r: Result<Step, RequestError>,
    spec: Result<StepView, RequestErrorView>,
) -> bool {
    match r {
        Ok(s) => spec == Ok::<StepView, RequestErrorView>(s@),
        Err(e) => spec == Err::<StepView, RequestErrorView>(e@),
    }
}

fn bad_request(message: &str) -> (r: Step)
    ensures
        r@ == respond(STATUS_BAD_REQUEST, ResponseBodyView::Error(message@)),
{
    Step::Respond(APIResponse { status: STATUS_BAD_REQUEST, body: ResponseBody::Error(message.to_owned()) })
}

fn is_supported(supported: &Vec<NotificationBackend>, backend: NotificationBackend) -> (r: bool)
    ensures
        r == supported@.contains(backend),
{
    let mut i: usize = 0;
    while i < supported.len()
        invariant
            i <= supported@.len(),
            forall|k: int| 0 <= k < i ==> supported@[k] != backend,
        decreases supported@.len() - i,
    {
        if supported[i] == backend {
            assert(supported@[i as int] == backend);
            return true;
        }
        i = i + 1;
    }
    false
}

impl APIHandler {
    /// A handler for an API served at `base_url` (the prefix of the URLs
    /// that NIP-98 notes authorize), whose notification service supports
    /// the given backends.
    pub fn new(base_url: String, supported_backends: Vec<NotificationBackend>) -> (r: APIHandler)
        ensures
            r.base_url() == base_url@,
            r.supported_backends() == supported_backends@,
    {
        APIHandler { base_url, supported_backends }
    }

    pub closed spec fn base_url(&self) -> Seq<char> {
        self.base_url@
    }

    pub closed spec fn supported_backends(&self) -> Seq<NotificationBackend> {
        self.supported_backends@
    }

    /// `PUT /user-info/{pubkey}/{deviceToken}`.
    pub fn handle_user_info(&self, req: &ParsedRequest, params: &Vec<(String, String)>) -> (r: Result<
        Step,
        RequestError,
    >)
        ensures
            step_result_matches(r, user_info_step(req@, pairs_view(*params), self.supported_backends())),
    {
        let (device_token, pubkey) = match device_and_checked_pubkey(params, req) {
            Ok(p) => p,
            Err(e) => return Err(RequestError::Api(e)),
        };
        let name = match find_first_value(&req.query, "backend") {
            Some(b) => b,
            None => "apns".to_owned(),
        };
        let backend = match NotificationBackend::from_name(name.as_str()) {
            Some(b) => b,
            None => return Ok(bad_request("backend is invalid")),
        };
        if !is_supported(&self.supported_backends, backend) {
            return Ok(bad_request("Backend not supported"));
        }
        Ok(Step::Perform(BackendAction::SaveUserDeviceInfo { pubkey, device_token, backend }))
    }

    /// `DELETE /user-info/{pubkey}/{deviceToken}`.
    pub fn handle_user_info_remove(
        &self,
        req: &ParsedRequest,
        params: &Vec<(String, String)>,
    ) -> (r: Result<Step, RequestError>)
        ensures
            step_result_matches(r, user_info_remove_step(req@, pairs_view(*params))),
    {
        let (device_token, pubkey) = match device_and_checked_pubkey(params, req) {
            Ok(p) => p,
            Err(e) => return Err(RequestError::Api(e)),
        };
        Ok(Step::Perform(BackendAction::RemoveUserDeviceInfo { pubkey, device_token }))
    }

    /// `PUT /user-info/{pubkey}/{deviceToken}/preference`.
    pub fn set_user_settings(&self, req: &ParsedRequest, params: &Vec<(String, String)>) -> (r: Result<
        Step,
        RequestError,
    >)
        ensures
            step_result_matches(r, set_user_settings_step(req@, pairs_view(*params))),
    {
        let (device_token, pubkey) = match device_and_checked_pubkey(params, req) {
            Ok(p) => p,
            Err(e) => return Err(RequestError::Api(e)),
        };
        let settings_json = match req.body_json() {
            Ok(j) => j,
            Err(e) => return Err(e),
        };
        Ok(
            Step::Perform(
                BackendAction::SaveUserNotificationSettings { pubkey, device_token, settings_json },
            ),
        )
    }

    /// `GET /user-info/{pubkey}/{deviceToken}/preference`.
    pub fn get_user_settings(&self, req: &ParsedRequest, params: &Vec<(String, String)>) -> (r: Result<
        Step,
        RequestError,
    >)
        ensures
            step_result_matches(r, get_user_settings_step(req@, pairs_view(*params))),
    {
        let (device_token, pubkey) = match device_and_checked_pubkey(params, req) {
            Ok(p) => p,
            Err(e) => return Err(RequestError::Api(e)),
        };
        Ok(Step::Perform(BackendAction::GetUserNotificationSettings { pubkey, device_token }))
    }

    /// Routes an authenticated request to its endpoint.
    pub fn handle_parsed_http_request(&self, req: &ParsedRequest) -> (r: Result<Step, RequestError>)
        ensures
            step_result_matches(r, parsed_request_step(req@, self.supported_backends())),
    {
        let router = match build_router() {
            Some(r) => r,
            None => return Err(RequestError::Internal),
        };
        let not_found = Step::Respond(
            APIResponse { status: STATUS_NOT_FOUND, body: ResponseBody::Error("Not found".to_owned()) },
        );
        match router_at(&router, req.uri.as_str()) {
            None => Ok(not_found),
            Some((route, params)) => {
                if route == ROUTE_USER_INFO && str_eq(req.method.as_str(), "PUT") {
                    self.handle_user_info(req, &params)
                } else if route == ROUTE_USER_INFO && str_eq(req.method.as_str(), "DELETE") {
                    self.handle_user_info_remove(req, &params)
                } else if route == ROUTE_USER_SETTING && str_eq(req.method.as_str(), "GET") {
                    self.get_user_settings(req, &params)
                } else if route == ROUTE_USER_SETTING && str_eq(req.method.as_str(), "PUT") {
                    self.set_user_settings(req, &params)
                } else {
                    Ok(not_found)
                }
            },
        }
    }

    /// Authenticates a request with NIP-98 at time `now`, and reads its
    /// path, method, body and query.
    pub fn parse_http_request_at(&self, req: &HttpRequest, now: u64) -> (r: Result<
        ParsedRequest,
        RequestError,
    >)
        ensures
            match r {
                Ok(p) => authenticated_request(self.base_url(), *req, now) == Ok::<
                    ParsedRequestView,
                    RequestErrorView,
                >(p@),
                Err(e) => authenticated_request(self.base_url(), *req, now) == Err::<
                    ParsedRequestView,
                    RequestErrorView,
                >(e@),
            },
    {
        let header_bytes = match &req.authorization {
            Some(h) => h,
            None => {
                return Err(
                    RequestError::Api(
                        APIError::AuthenticationError("Authorization header not found".to_owned()),
                    ),
                )
            },
        };
        let mut i: usize = 0;
        while i < header_bytes.len()
            invariant
                req.authorization == Some(*header_bytes),
                i <= header_bytes@.len(),
                forall|k: int| 0 <= k < i ==> is_visible_ascii(#[trigger] header_bytes@[k]),
            decreases header_bytes@.len() - i,
        {
            let b = header_bytes[i];
            if !((32 <= b && b < 127) || b == 9) {
                assert(!is_visible_ascii(header_bytes@[i as int]));
                return Err(RequestError::Internal);
            }
            i = i + 1;
        }
        proof {
            crate::text::lemma_ascii_bytes_are_utf8(header_bytes@);
        }
        let header = match string_from_utf8(header_bytes.clone()) {
            Some(h) => h,
            None => return Err(RequestError::Internal),
        };
        let mut url = self.base_url.clone();
        match &req.path_and_query {
            Some(p) => url.append(p.as_str()),
            None => url.append(""),
        }
        let body_bytes: Option<Vec<u8>> = if req.body.len() == 0 {
            None
        } else {
            Some(req.body.clone())
        };
        assert(body_view(body_bytes) == body_of(req.body@));
        let note = match crate::nip98_auth::nip98_verify_auth_header_at(
            header.as_str(),
            url.as_str(),
            req.method.as_str(),
            &body_bytes,
            now,
        ) {
            Ok(n) => n,
            Err(message) => {
                return Err(RequestError::Api(APIError::AuthenticationError(message.to_owned())))
            },
        };
        let query = match &req.query {
            Some(q) => parse_query_pairs(q.as_str().as_bytes()),
            None => Vec::new(),
        };
        assert(pairs_view(query) =~= query_pairs(req.query));
        Ok(
            ParsedRequest {
                uri: req.path.clone(),
                method: req.method.clone(),
                body_bytes,
                authorized_pubkey: note.pubkey().clone(),
                query,
            },
        )
    }

    /// Handles a request at time `now`: authenticates it, routes it and
    /// checks its parameters, and gives the response, or the action that
    /// the notification backend must carry out first.
    pub fn handle_http_request_at(&self, req: &HttpRequest, now: u64) -> (r: Step)
        ensures
            r@ == request_step(self.base_url(), self.supported_backends(), *req, now),
    {
        let outcome = match self.parse_http_request_at(req, now) {
            Ok(parsed) => self.handle_parsed_http_request(&parsed),
            Err(e) => Err(e),
        };
        match outcome {
            Ok(step) => step,
            Err(e) => Step::Respond(self.error_response(e)),
        }
    }

    /// Handles a request at the current time: authenticates it, routes it
    /// and checks its parameters, and gives the response, or the action
    /// that the notification backend must carry out first. Every outcome is
    /// the one that `request_step` gives at some time: the clock is the only
    /// input that the contract leaves open.
    pub fn handle_http_request(&self, req: &HttpRequest) -> (r: Step)
        ensures
            exists|now: u64|
                r@ == #[trigger] request_step(self.base_url(), self.supported_backends(), *req, now),
    {
        let now = crate::nostr_event::current_unix_time();
        self.handle_http_request_at(req, now)
    }

    /// The response to a failed request: `401 Unauthorized` with the
    /// message for an authentication error, `400 Bad Request` with the
    /// error's text for another error of the API, and `500 Internal Server
    /// Error` for anything else.
    pub fn error_response(&self, e: RequestError) -> (r: APIResponse)
        ensures
            r@ == error_response(e@),
    {
        match e {
            RequestError::Api(APIError::AuthenticationError(m)) => APIResponse {
                status: STATUS_UNAUTHORIZED,
                body: ResponseBody::Unauthorized(m),
            },
            RequestError::Api(other) => {
                let text = other.message();
                APIResponse { status: STATUS_BAD_REQUEST, body: ResponseBody::Error(text) }
            },
            RequestError::Internal => APIResponse {
                status: STATUS_INTERNAL_SERVER_ERROR,
                body: ResponseBody::InternalError,
            },
        }
    }

    /// The response once the notification backend has carried out `action`
    /// with the given outcome.
    pub fn finish_action(&self, action: &BackendAction, outcome: ActionOutcome) -> (r: APIResponse)
        ensures
            r@ == action_response(action@, outcome@),
    {
        let internal = APIResponse {
            status: STATUS_INTERNAL_SERVER_ERROR,
            body: ResponseBody::InternalError,
        };
        match (action, outcome) {
            (BackendAction::SaveUserDeviceInfo { .. }, ActionOutcome::Done) => APIResponse {
                status: STATUS_OK,
                body: ResponseBody::Message("User info saved successfully".to_owned()),
            },
            (BackendAction::RemoveUserDeviceInfo { .. }, ActionOutcome::Done) => APIResponse {
                status: STATUS_OK,
                body: ResponseBody::Message("User info removed successfully".to_owned()),
            },
            (BackendAction::SaveUserNotificationSettings { .. }, ActionOutcome::Done) => APIResponse {
                status: STATUS_OK,
                body: ResponseBody::Message("User settings saved successfully".to_owned()),
            },
            (
                BackendAction::SaveUserNotificationSettings { .. },
                ActionOutcome::InvalidSettings,
            ) => APIResponse {
                status: STATUS_BAD_REQUEST,
                body: ResponseBody::Error("Invalid settings".to_owned()),
            },
            (
                BackendAction::GetUserNotificationSettings { .. },
                ActionOutcome::Settings(json),
            ) => APIResponse { status: STATUS_OK, body: ResponseBody::Json(json) },
            _ => internal,
        }
    }
}

} // verus!
