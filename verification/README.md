# mediasoup_server

Signaling server for a self-hosted MediaSoup SFU used by FoundryVTT.

* `src/` — the verified library:
  * `auth` — shared-secret check (constant-time comparison) and the identity
    an authenticated client takes;
  * `json` — the JSON model of signaling frames and field lookup;
  * `signaling` — the incoming envelope, outgoing frames and their wire shape,
    request data and responses;
  * `request` — which operation a message names, its decoded payload, and the
    reply owed for it;
  * `session` — the per-connection protocol state machine (authentication
    gate, dispatch, close), with the laws over whole runs;
  * `workers` — worker log settings and the round-robin worker pool;
  * `tls` — reading the DER certificate chain and key from PEM files.
* `app/` — the program: WebSocket and TLS plumbing, serde parsing of frames and
  request payloads, configuration from the
  environment, rooms and peers on the MediaSoup engine, and the loop that
  feeds each connection's frames to `session::Session`.
* `tests/` — tests of the library on concrete values.
