//! Verified core of a Nostr push-notification relay: NIP-98 request
//! authentication, configuration, API request routing and the relay
//! connection's message handling.
pub mod text;
pub mod nostr_event;
pub mod codec;
pub mod nip98_auth;
pub mod config;
pub mod notepush_env;
pub mod relay_connection;
pub mod api_request_handler;
