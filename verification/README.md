# wrtc

Peer connections and data channels over [webrtc](https://webrtc.rs), with a verified core.

- `src/` holds the library, verified with [Verus](https://github.com/verus-lang/verus): the status
  of a connection (`status`) and of a data channel (`data_channel`), the messages that two peers
  exchange (`signal`, `ice`) and their text form (`json`), what is done about a message, step by
  step (`task`), and the connection that ties these together (`peer_connection`, `options`).
- `app/` drives it: it waits, sends and receives, with `tokio` and `webrtc`, and offers data
  channels as `Stream` and `Sink`.
- `tests/` runs the library on concrete values.

A connection is closed once and for all, and keeps the cause where it failed. A data channel that
has failed tells why ever after, also once the underlying channel has closed. Candidates that come
before the description of the remote peer are kept, and handed over in the order in which they
came. Every message is answered by at most one other, and reading the text of a message gives the
message back.
