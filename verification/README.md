# arda_live_media_server

A WebRTC live media server: publishers send an SDP offer to
`POST /api/v1/resources/{endpoint}`, viewers to `GET /api/v1/resources/{endpoint}`,
and each gets the server's SDP answer back.

- `src/` is the verified library:
  - `routes/exchange.rs`: the offer/answer exchange as a state machine from
    phase and step outcome to next phase and action; `routes/exchange_laws.rs`
    proves what every run of it does (one reply, 200 only after every step).
  - `routes/offer.rs`: reading the request body, the JSON form of the offer and
    the session description read back from it.
  - `routes/peer_events.rs`: reactions to connection-state changes, ICE
    candidates, ICE servers.
  - `media/`: the registry of live streams keyed by endpoint, streams,
    observers, publishers.
  - `codec.rs`, `webrtc_api.rs`: codec descriptions and the setup of the
    WebRTC API.
  - `health.rs`, `media_server.rs`.
- `app/` is the server: actix-web routes, the async driving of each exchange
  against `webrtc`, and `main`, which takes the host and port as arguments.
