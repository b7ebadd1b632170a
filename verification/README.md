# notepush

A Nostr relay that sends push notifications (APNs, FCM) for the events it
receives, with an HTTP API through which devices register, authenticated with
NIP-98.

- `src/` is the verified library:
  - `nip98_auth` checks a NIP-98 `Authorization` header against a request;
    `nip98_outcome` states the whole check and its refusals in order;
  - `api_request_handler` authenticates, routes and checks API requests and
    decides what the notification backend must do and what the client is
    answered;
  - `relay_connection` answers client messages on a websocket and closes the
    connection after ten failures in a row;
  - `config` and `notepush_env` derive the server's settings;
  - `nostr_event`, `codec` and `text` hold the event type, the codecs taken
    from `nostr`, `base64`, `serde_json`, `urlencoding` and `url`, and string
    helpers.
- `app/` is the server around it: hyper and websocket I/O, reading
  `config.yaml` and the environment, and the calls into the notification
  manager (the `notification_manager` module that `app/main.rs` declares,
  which stores devices and settings and sends the notifications).
- `tests/` exercises the library on concrete requests, notes and messages.
