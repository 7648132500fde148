# harmion_connect

The decisions of a peer network over WebRTC, proved with Verus: signed messages,
topics, which messages are trusted, how peers find each other through signalling
services, and where those services route what peers tell each other.

- `src/` is the library. It holds no I/O: where something outside decides or has
  to be done, a function takes what happened and returns what to do next, and its
  contract says which step follows from which event. Connections, channels and
  tasks are numbers by which whoever runs them finds them again.
  - `keys`, `message`: Ed25519 keys and signed messages.
  - `topic`, `subscriber`: paths of topics, and who can subscribe to them.
  - `connection`, `verify`: handshakes, and connections that hand out authentic
    messages only, each once.
  - `webrtc::simple`, `webrtc::alias`: the connection of one peer to another.
  - `webrtc::signal`: what clients and signalling services tell each other.
    `roster` holds which peer is at which service, `client` and `server` the two
    sides of the signalling.
  - `webrtc::pool`: the peers of a node and its signalling client.
  - `collections`, `text`, `webrtc::conns`: sets, maps, numbers as text, tables of
    connections.
- `tests/` runs the library on concrete values.
- `app/` runs it over sockets, timers and WebRTC, and puts its types on the wire as
  MessagePack.

Calls into other crates stand in `keys`, `message`, `webrtc::alias` and
`webrtc::conns`, each in a small function whose comment says what is taken for
granted of it.
