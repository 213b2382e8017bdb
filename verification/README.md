# Bloop Client Framework

A client framework for the Bloop wire protocol, with its rules proved by Verus.

The framework owns the connection lifecycle of a Bloop client: DNS lookup, TLS, protocol handshake, authentication,
keep-alive pings, and reconnecting after failures. It also caches achievement audio on disk, plays it, and reads NFC
cards.

## Layout

- `src/` is the verified library. It holds the rules and performs nothing: each rule takes what happened and returns
  what to do next.
  - `client.rs`, `client_laws.rs`: the connection task, and what holds of it over any course of events.
  - `builder.rs`, `tls.rs`: the client's settings and their defaults.
  - `connection.rs`: the way from a host name to an authenticated connection.
  - `request.rs`, `operations.rs`, `protocol.rs`: requests, responses, and their wire forms.
  - `audio_cache.rs`, `audio.rs`: caching and playing achievement audio.
  - `nfc/`: the MFRC522 reader backend and NDEF text records.
- `app/` is the client at work: sockets, files, timers, threads and devices around the library.
- `tests/` runs the library on concrete values, with the protocol crate on the other end of the wire.

## What is proved

The connection task answers every request exactly once, one at a time; reports `Connected` exactly while it uses a
connection, and only after the on-connect hook succeeded; stays latched on rejected credentials until a new
configuration arrives; and stays shut down. What a server sends is what a caller gets. Audio files of different
content never share a name, outdated ones and leftovers of interrupted downloads are pruned, and files in use are not.
A message that a tag announces is extracted however the tag's data is cut into chunks, and reading a tag comes to the
message's text, or to an error.

The calls into the protocol crate, rustls, uuid and the standard library are believed as stated in the contracts of
the functions that make them.
