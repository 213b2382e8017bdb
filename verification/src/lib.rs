//! Client framework for the Bloop wire protocol.
//!
//! The framework owns the whole connection lifecycle a Bloop client needs:
//! DNS lookup, TLS, protocol handshake, authentication, keep-alive pings, and
//! reconnecting after failures. This crate holds its rules, each with a
//! contract that Verus proves; sockets, files, timers and devices stay with
//! the application around it, which performs what the rules decide.
//!
//! - [`client`]: the connection task, event by event.
//! - [`builder`]: the settings of a client and their defaults.
//! - [`connection`]: the way from a host name to an authenticated connection.
//! - [`request`] and [`operations`]: what requests look like and what their
//!   responses mean.
//! - [`protocol`]: the values on the wire.
//! - [`audio_cache`] and [`audio`]: caching and playing achievement audio.
//! - [`nfc`]: reading cards, and parsing NDEF text records.
//!
//! The modules [`client_laws`], [`connection_laws`], [`audio_cache_laws`],
//! [`nfc::mfrc522_laws`] and [`nfc::ndef_laws`] state what holds of these rules
//! over all inputs and any course of events; the laws of the smaller modules
//! stand at their ends.

pub mod audio;
pub mod audio_cache;
pub mod audio_cache_laws;
pub mod builder;
pub mod client;
pub mod client_laws;
pub mod connection;
pub mod connection_laws;
pub mod nfc;
pub mod operations;
pub mod protocol;
pub mod request;
pub mod text;
pub mod tls;

pub use audio_cache::{AudioCache, AudioCacheError};
pub use builder::BloopClientBuilder;
pub use client::{ConnectionConfig, ConnectionStatus, InvalidCredentialsPolicy};
pub use operations::PreloadOutcome;
pub use request::RequestError;
pub use tls::RootCertSource;
