//! The client's settings and their defaults.

use vstd::prelude::*;

use crate::client::{
    resting_status, ClientTask, ConnectionConfig, InvalidCredentialsPolicy, TaskModel, TaskPhase,
};
use crate::tls::RootCertSource;

verus! {

/// A length of time: whole seconds and nanoseconds on top of them.
#[derive(Clone, Copy, Debug, Eq, PartialEq, Structural)]
pub struct Span {
    pub secs: u64,
    pub nanos: u32,
}

impl Span {
    /// A span of whole seconds.
    pub fn from_secs(secs: u64) -> (span: Span)
        ensures
            span == (Span { secs, nanos: 0 }),
    {
        Span { secs, nanos: 0 }
    }
}

/// Limits on a connection.
#[derive(Clone, Copy, Debug, Eq, PartialEq, Structural)]
pub struct ConnectOptions {
    /// Longest time one read or write may take, and the whole way up to the
    /// TLS session.
    pub io_timeout: Span,
    /// Longest payload accepted from the server.
    pub max_payload_len: u32,
}

/// Builder for a client.
///
/// All settings have defaults; a client built without
/// [`config`](Self::config) starts unconfigured and waits for a
/// configuration. `H` is the on-connect hook.
#[derive(Debug)]
pub struct BloopClientBuilder<H> {
    pub config: Option<ConnectionConfig>,
    pub root_cert_source: RootCertSource,
    pub ping_interval: Span,
    pub io_timeout: Span,
    pub request_timeout: Span,
    pub max_payload_len: u32,
    pub invalid_credentials_policy: InvalidCredentialsPolicy,
    pub on_connect: Option<H>,
}

/// What a client runs on: the rules of its connection task, and the settings
/// of what the task has done for it.
#[derive(Debug)]
pub struct ClientParts<H> {
    pub task: ClientTask,
    pub root_cert_source: RootCertSource,
    pub ping_interval: Span,
    pub request_timeout: Span,
    pub options: ConnectOptions,
    pub on_connect: Option<H>,
}

/// The default settings: ping every 3 seconds, 5 seconds per read or write,
/// 60 seconds per exchange, payloads up to 16 MiB, platform certificates, and
/// a latch on rejected credentials.
pub open spec fn default_settings<H>() -> BloopClientBuilder<H> {
    BloopClientBuilder {
        config: None,
        root_cert_source: RootCertSource::Platform,
        ping_interval: Span { secs: 3, nanos: 0 },
        io_timeout: Span { secs: 5, nanos: 0 },
        request_timeout: Span { secs: 60, nanos: 0 },
        max_payload_len: 0x100_0000,
        invalid_credentials_policy: InvalidCredentialsPolicy::Latch,
        on_connect: None,
    }
}

impl<H> BloopClientBuilder<H> {
    /// Creates a builder with default settings.
    pub fn new() -> (builder: Self)
        ensures
            builder == default_settings::<H>(),
    {
        BloopClientBuilder {
            config: None,
            root_cert_source: RootCertSource::default(),
            ping_interval: Span::from_secs(3),
            io_timeout: Span::from_secs(5),
            request_timeout: Span::from_secs(60),
            max_payload_len: 16 * 1024 * 1024,
            invalid_credentials_policy: InvalidCredentialsPolicy::default(),
            on_connect: None,
        }
    }

    /// Sets the initial connection configuration.
    pub fn config(self, config: ConnectionConfig) -> (builder: Self)
        ensures
            builder == (BloopClientBuilder { config: Some(config), ..self }),
    {
        BloopClientBuilder { config: Some(config), ..self }
    }

    /// Selects the root certificates used to verify the server.
    pub fn root_cert_source(self, source: RootCertSource) -> (builder: Self)
        ensures
            builder == (BloopClientBuilder { root_cert_source: source, ..self }),
    {
        BloopClientBuilder { root_cert_source: source, ..self }
    }

    /// Overrides the keep-alive interval, which doubles as the reconnect
    /// interval.
    pub fn ping_interval(self, interval: Span) -> (builder: Self)
        ensures
            builder == (BloopClientBuilder { ping_interval: interval, ..self }),
    {
        BloopClientBuilder { ping_interval: interval, ..self }
    }

    /// Overrides the per-operation read/write timeout on the stream.
    ///
    /// This is an idle timeout: it fires when the server sends nothing at
    /// all for the given time. See also
    /// [`request_timeout`](Self::request_timeout).
    pub fn io_timeout(self, timeout: Span) -> (builder: Self)
        ensures
            builder == (BloopClientBuilder { io_timeout: timeout, ..self }),
    {
        BloopClientBuilder { io_timeout: timeout, ..self }
    }

    /// Overrides the total deadline for a single request-response exchange.
    ///
    /// Unlike [`io_timeout`](Self::io_timeout), this bounds the whole
    /// exchange, so a server that keeps trickling bytes cannot hold a
    /// request (and with it the connection task) open indefinitely. The same
    /// deadline separately applies to each connection attempt, to the
    /// on-connect hook, and to enqueueing a request on a busy client.
    pub fn request_timeout(self, timeout: Span) -> (builder: Self)
        ensures
            builder == (BloopClientBuilder { request_timeout: timeout, ..self }),
    {
        BloopClientBuilder { request_timeout: timeout, ..self }
    }

    /// Overrides the maximum payload length accepted from the server.
    ///
    /// The default of 16 MiB leaves room for audio data.
    pub fn max_payload_len(self, max_payload_len: u32) -> (builder: Self)
        ensures
            builder == (BloopClientBuilder { max_payload_len, ..self }),
    {
        BloopClientBuilder { max_payload_len, ..self }
    }

    /// Selects the behavior after the server rejects the credentials.
    pub fn invalid_credentials_policy(self, policy: InvalidCredentialsPolicy) -> (builder: Self)
        ensures
            builder == (BloopClientBuilder { invalid_credentials_policy: policy, ..self }),
    {
        BloopClientBuilder { invalid_credentials_policy: policy, ..self }
    }

    /// Registers a hook that runs inside every connection attempt.
    ///
    /// The hook runs after authentication but before the status flips to
    /// `Connected`; a hook error fails the attempt, and the client retries.
    pub fn on_connect(self, hook: H) -> (builder: Self)
        ensures
            builder == (BloopClientBuilder { on_connect: Some(hook), ..self }),
    {
        BloopClientBuilder { on_connect: Some(hook), ..self }
    }

    /// Builds what the client runs on.
    pub fn build(self) -> (parts: ClientParts<H>)
        ensures
            parts.task@ == (TaskModel {
                config: self.config,
                connection: None,
                status: resting_status(self.config),
                policy: self.invalid_credentials_policy,
                has_hook: self.on_connect is Some,
                credentials_invalid: false,
                shutdown: false,
                phase: TaskPhase::Idle,
            }),
            parts.task@.is_valid(),
            parts.root_cert_source == self.root_cert_source,
            parts.ping_interval == self.ping_interval,
            parts.request_timeout == self.request_timeout,
            parts.options == (ConnectOptions {
                io_timeout: self.io_timeout,
                max_payload_len: self.max_payload_len,
            }),
            parts.on_connect == self.on_connect,
    {
        let task = ClientTask::new(
            self.config,
            self.invalid_credentials_policy,
            self.on_connect.is_some(),
        );
        ClientParts {
            task,
            root_cert_source: self.root_cert_source,
            ping_interval: self.ping_interval,
            request_timeout: self.request_timeout,
            options: ConnectOptions {
                io_timeout: self.io_timeout,
                max_payload_len: self.max_payload_len,
            },
            on_connect: self.on_connect,
        }
    }
}

impl<H> Default for BloopClientBuilder<H> {
    fn default() -> (builder: Self)
        ensures
            builder == default_settings::<H>(),
    {
        Self::new()
    }
}

/// Setting `config` sets it and leaves every other setting alone.
pub proof fn law_config_is_set<H>(
    builder: BloopClientBuilder<H>,
    value: ConnectionConfig,
    changed: BloopClientBuilder<H>,
)
    requires
        call_ensures(BloopClientBuilder::<H>::config, (builder, value), changed),
    ensures
        changed.config == Some(value),
        changed.root_cert_source == builder.root_cert_source,
        changed.ping_interval == builder.ping_interval,
        changed.io_timeout == builder.io_timeout,
        changed.request_timeout == builder.request_timeout,
        changed.max_payload_len == builder.max_payload_len,
        changed.invalid_credentials_policy == builder.invalid_credentials_policy,
        changed.on_connect == builder.on_connect,
{
}

/// Setting `root_cert_source` sets it and leaves every other setting alone.
pub proof fn law_root_cert_source_is_set<H>(
    builder: BloopClientBuilder<H>,
    value: RootCertSource,
    changed: BloopClientBuilder<H>,
)
    requires
        call_ensures(BloopClientBuilder::<H>::root_cert_source, (builder, value), changed),
    ensures
        changed.root_cert_source == value,
        changed.config == builder.config,
        changed.ping_interval == builder.ping_interval,
        changed.io_timeout == builder.io_timeout,
        changed.request_timeout == builder.request_timeout,
        changed.max_payload_len == builder.max_payload_len,
        changed.invalid_credentials_policy == builder.invalid_credentials_policy,
        changed.on_connect == builder.on_connect,
{
}

/// Setting `ping_interval` sets it and leaves every other setting alone.
pub proof fn law_ping_interval_is_set<H>(
    builder: BloopClientBuilder<H>,
    value: Span,
    changed: BloopClientBuilder<H>,
)
    requires
        call_ensures(BloopClientBuilder::<H>::ping_interval, (builder, value), changed),
    ensures
        changed.ping_interval == value,
        changed.config == builder.config,
        changed.root_cert_source == builder.root_cert_source,
        changed.io_timeout == builder.io_timeout,
        changed.request_timeout == builder.request_timeout,
        changed.max_payload_len == builder.max_payload_len,
        changed.invalid_credentials_policy == builder.invalid_credentials_policy,
        changed.on_connect == builder.on_connect,
{
}

/// Setting `io_timeout` sets it and leaves every other setting alone.
pub proof fn law_io_timeout_is_set<H>(
    builder: BloopClientBuilder<H>,
    value: Span,
    changed: BloopClientBuilder<H>,
)
    requires
        call_ensures(BloopClientBuilder::<H>::io_timeout, (builder, value), changed),
    ensures
        changed.io_timeout == value,
        changed.config == builder.config,
        changed.root_cert_source == builder.root_cert_source,
        changed.ping_interval == builder.ping_interval,
        changed.request_timeout == builder.request_timeout,
        changed.max_payload_len == builder.max_payload_len,
        changed.invalid_credentials_policy == builder.invalid_credentials_policy,
        changed.on_connect == builder.on_connect,
{
}

/// Setting `request_timeout` sets it and leaves every other setting alone.
pub proof fn law_request_timeout_is_set<H>(
    builder: BloopClientBuilder<H>,
    value: Span,
    changed: BloopClientBuilder<H>,
)
    requires
        call_ensures(BloopClientBuilder::<H>::request_timeout, (builder, value), changed),
    ensures
        changed.request_timeout == value,
        changed.config == builder.config,
        changed.root_cert_source == builder.root_cert_source,
        changed.ping_interval == builder.ping_interval,
        changed.io_timeout == builder.io_timeout,
        changed.max_payload_len == builder.max_payload_len,
        changed.invalid_credentials_policy == builder.invalid_credentials_policy,
        changed.on_connect == builder.on_connect,
{
}

/// Setting `max_payload_len` sets it and leaves every other setting alone.
pub proof fn law_max_payload_len_is_set<H>(
    builder: BloopClientBuilder<H>,
    value: u32,
    changed: BloopClientBuilder<H>,
)
    requires
        call_ensures(BloopClientBuilder::<H>::max_payload_len, (builder, value), changed),
    ensures
        changed.max_payload_len == value,
        changed.config == builder.config,
        changed.root_cert_source == builder.root_cert_source,
        changed.ping_interval == builder.ping_interval,
        changed.io_timeout == builder.io_timeout,
        changed.request_timeout == builder.request_timeout,
        changed.invalid_credentials_policy == builder.invalid_credentials_policy,
        changed.on_connect == builder.on_connect,
{
}

/// Setting `invalid_credentials_policy` sets it and leaves every other setting alone.
pub proof fn law_invalid_credentials_policy_is_set<H>(
    builder: BloopClientBuilder<H>,
    value: InvalidCredentialsPolicy,
    changed: BloopClientBuilder<H>,
)
    requires
        call_ensures(BloopClientBuilder::<H>::invalid_credentials_policy, (builder, value), changed),
    ensures
        changed.invalid_credentials_policy == value,
        changed.config == builder.config,
        changed.root_cert_source == builder.root_cert_source,
        changed.ping_interval == builder.ping_interval,
        changed.io_timeout == builder.io_timeout,
        changed.request_timeout == builder.request_timeout,
        changed.max_payload_len == builder.max_payload_len,
        changed.on_connect == builder.on_connect,
{
}

/// Setting `on_connect` sets it and leaves every other setting alone.
pub proof fn law_on_connect_is_set<H>(
    builder: BloopClientBuilder<H>,
    value: H,
    changed: BloopClientBuilder<H>,
)
    requires
        call_ensures(BloopClientBuilder::<H>::on_connect, (builder, value), changed),
    ensures
        changed.on_connect == Some(value),
        changed.config == builder.config,
        changed.root_cert_source == builder.root_cert_source,
        changed.ping_interval == builder.ping_interval,
        changed.io_timeout == builder.io_timeout,
        changed.request_timeout == builder.request_timeout,
        changed.max_payload_len == builder.max_payload_len,
        changed.invalid_credentials_policy == builder.invalid_credentials_policy,
{
}

/// A client runs on the settings it was built from, each where it belongs.
pub proof fn law_client_runs_on_its_settings<H>(
    builder: BloopClientBuilder<H>,
    parts: ClientParts<H>,
)
    requires
        call_ensures(BloopClientBuilder::<H>::build, (builder,), parts),
    ensures
        parts.task@.is_valid(),
        parts.task@.phase is Idle,
        parts.task@.config == builder.config,
        parts.task@.policy == builder.invalid_credentials_policy,
        parts.task@.has_hook <==> builder.on_connect is Some,
        parts.task@.connection is None,
        !parts.task@.credentials_invalid,
        !parts.task@.shutdown,
        parts.task@.status is Unconfigured <==> builder.config is None,
        parts.task@.status is Disconnected <==> builder.config is Some,
        parts.root_cert_source == builder.root_cert_source,
        parts.ping_interval == builder.ping_interval,
        parts.request_timeout == builder.request_timeout,
        parts.options.io_timeout == builder.io_timeout,
        parts.options.max_payload_len == builder.max_payload_len,
        parts.on_connect == builder.on_connect,
{
}

/// The defaults of every client, whatever its hook.
pub proof fn law_defaults<H>(builder: BloopClientBuilder<H>)
    requires
        call_ensures(BloopClientBuilder::<H>::new, (), builder) || call_ensures(
            <BloopClientBuilder<H> as Default>::default,
            (),
            builder,
        ),
    ensures
        builder.config is None,
        builder.on_connect is None,
        builder.root_cert_source is Platform,
        builder.invalid_credentials_policy is Latch,
        builder.ping_interval.secs == 3 && builder.ping_interval.nanos == 0,
        builder.io_timeout.secs == 5 && builder.io_timeout.nanos == 0,
        builder.request_timeout.secs == 60 && builder.request_timeout.nanos == 0,
        builder.max_payload_len == 16 * 1024 * 1024,
{
}

/// A span of whole seconds has no more than those.
pub proof fn law_seconds_are_whole(secs: u64, span: Span)
    requires
        call_ensures(Span::from_secs, (secs,), span),
    ensures
        span.secs == secs,
        span.nanos == 0,
{
}

} // verus!
