//! The client's settings and the rules of its connection task.
//!
//! [`ClientTask`] decides; it performs nothing itself. Each of its methods
//! takes something that happened (a command, a tick of the ping timer, the
//! end of an exchange) and returns, in order, what to do about it. Some
//! effects are awaited: the task is then busy until the method that takes
//! their end is called.

use vstd::prelude::*;

use crate::operations::ping_response;
use crate::protocol::{
    decode_error, error_of_code, is_fatal_error, Capabilities, ErrorResponse, RawMessage,
    ERROR_RESPONSE, PONG,
};
use crate::request::RequestError;

verus! {

/// Number of commands that can wait for the connection task.
pub const COMMAND_CAPACITY: usize = 16;

/// Seconds a shutdown waits for the connection task at most.
pub const SHUTDOWN_WAIT_SECS: u64 = 5;

/// Server address and credentials for a connection.
#[derive(Debug)]
pub struct ConnectionConfig {
    /// Host name or address of the server.
    pub host: String,
    /// Port the server listens on.
    pub port: u16,
    /// Client ID sent during authentication.
    pub client_id: String,
    /// Client secret sent during authentication.
    pub client_secret: String,
}

impl Clone for ConnectionConfig {
    fn clone(&self) -> (copy: Self)
        ensures
            copy == *self,
    {
        ConnectionConfig {
            host: self.host.clone(),
            port: self.port,
            client_id: self.client_id.clone(),
            client_secret: self.client_secret.clone(),
        }
    }
}

/// The client's connection state.
#[derive(Clone, Copy, Debug, Eq, PartialEq, Structural)]
#[non_exhaustive]
pub enum ConnectionStatus {
    /// No connection configuration is set.
    Unconfigured,
    /// Configured but not currently connected; the client keeps retrying.
    Disconnected,
    /// Connected and authenticated.
    #[non_exhaustive]
    Connected {
        /// The capabilities the server declared in its handshake.
        capabilities: Capabilities,
    },
    /// The server rejected the credentials.
    InvalidCredentials,
    /// The client was shut down and will not reconnect.
    Shutdown,
}

/// How the client behaves after the server rejects its credentials.
#[derive(Clone, Copy, Debug, Eq, PartialEq, Structural)]
#[non_exhaustive]
pub enum InvalidCredentialsPolicy {
    /// Stop connecting until a new configuration arrives.
    Latch,
    /// Keep retrying with the same credentials.
    Retry,
}

impl Default for InvalidCredentialsPolicy {
    fn default() -> (policy: Self)
        ensures
            policy == InvalidCredentialsPolicy::Latch,
    {
        InvalidCredentialsPolicy::Latch
    }
}

/// A command from a client handle.
#[derive(Debug)]
pub enum Command {
    /// Replace the connection configuration.
    Configure(Option<ConnectionConfig>),
    /// Perform one exchange and respond with its outcome.
    Request(RawMessage),
    /// Wind down for good, then acknowledge.
    Shutdown,
}

/// How a connection attempt ended.
#[derive(Clone, Copy, Debug, Eq, PartialEq, Structural)]
pub enum ConnectEnd {
    /// The fresh connection is authenticated.
    Connected(Capabilities),
    /// The server rejected the credentials.
    InvalidCredentials,
    /// The attempt failed or exceeded the request timeout.
    Failed,
}

/// How an on-connect hook ended.
#[derive(Clone, Copy, Debug, Eq, PartialEq, Structural)]
pub enum HookEnd {
    /// The hook succeeded.
    Succeeded,
    /// The hook returned an error.
    Failed,
    /// The hook exceeded the request timeout.
    TimedOut,
}

/// What the connection task does next.
///
/// There is one connection at a time: the one `Connect` establishes, until
/// `Quit` or `Drop`.
#[derive(Debug)]
pub enum Effect {
    /// Announce the disconnect to the server, best effort, and drop the
    /// connection.
    Quit,
    /// Drop the connection without a word.
    Drop,
    /// Publish a status to the watchers.
    Publish(ConnectionStatus),
    /// Respond to the request being served.
    Respond(Result<RawMessage, RequestError>),
    /// Acknowledge the shutdown being served.
    Acknowledge,
    /// Exchange the frame on the connection within the request timeout, and
    /// report the end to [`ClientTask::finish_exchange`].
    Exchange(RawMessage),
    /// Exchange a ping on the connection within the request timeout, and
    /// report the end to [`ClientTask::finish_ping`].
    Ping,
    /// Establish a connection with the current configuration within the
    /// request timeout, and report the end to
    /// [`ClientTask::finish_connect`].
    Connect,
    /// Run the on-connect hook on the fresh connection within the request
    /// timeout, and report the end to [`ClientTask::finish_hook`].
    RunHook,
}

/// What the connection task is waiting for.
#[derive(Clone, Copy, Debug, Eq, PartialEq, Structural)]
pub enum TaskPhase {
    /// A command, a tick, or the last handle's end.
    Idle,
    /// The end of a request's exchange.
    Exchanging,
    /// The end of a ping.
    Pinging,
    /// The end of a connection attempt.
    Connecting,
    /// The end of the on-connect hook on a connection with the given
    /// capabilities.
    Hooking(Capabilities),
    /// Nothing; every handle is gone.
    Stopped,
}

/// Everything the connection task decides by.
pub struct TaskModel {
    pub config: Option<ConnectionConfig>,
    /// The capabilities of the connection in use, if there is one.
    pub connection: Option<Capabilities>,
    pub status: ConnectionStatus,
    pub policy: InvalidCredentialsPolicy,
    pub has_hook: bool,
    pub credentials_invalid: bool,
    pub shutdown: bool,
    pub phase: TaskPhase,
}

/// Something that happened to the connection task.
pub enum TaskEvent {
    Command(Command),
    Tick,
    HandlesGone,
    /// The reply to a request, or `None` if the transport failed or the
    /// request timeout passed.
    Exchanged(Option<RawMessage>),
    /// The reply to a ping, or `None` likewise.
    Pinged(Option<RawMessage>),
    ConnectEnded(ConnectEnd),
    HookEnded(HookEnd),
}

/// The status of a client that is not connected, by its configuration.
pub open spec fn resting_status(config: Option<ConnectionConfig>) -> ConnectionStatus {
    if config is Some {
        ConnectionStatus::Disconnected
    } else {
        ConnectionStatus::Unconfigured
    }
}

/// What publishing a status does: nothing if it is unchanged.
pub open spec fn publish(current: ConnectionStatus, status: ConnectionStatus) -> Seq<Effect> {
    if current == status {
        Seq::empty()
    } else {
        seq![Effect::Publish(status)]
    }
}

/// Whether a reply reports an error after which the server has closed the
/// connection.
pub open spec fn is_fatal_reply(raw: RawMessage) -> bool {
    &&& raw.message_type == ERROR_RESPONSE
    &&& raw.payload@.len() == 1
    &&& is_fatal_error(error_of_code(raw.payload@[0]))
}

/// Whether a reply answers a ping.
pub open spec fn is_pong(raw: RawMessage) -> bool {
    raw.message_type == PONG && raw.payload@.len() == 0
}

impl TaskModel {
    /// Whether connecting is pointless until a new configuration arrives.
    pub open spec fn is_latched(self) -> bool {
        self.credentials_invalid && self.policy == InvalidCredentialsPolicy::Latch
    }

    /// Whether there is a connection, in use or still fresh.
    pub open spec fn has_connection(self) -> bool {
        self.connection is Some || self.phase is Hooking
    }

    /// Whether the task has ended or been told to.
    pub open spec fn is_over(self) -> bool {
        self.shutdown || self.phase is Stopped
    }

    /// What holds of the task at all times.
    pub open spec fn is_valid(self) -> bool {
        &&& self.connection is Some <==> self.status is Connected
        &&& self.connection matches Some(capabilities) ==> self.status
            == (ConnectionStatus::Connected { capabilities })
        &&& self.status is Shutdown <==> self.is_over()
        &&& !self.is_over() ==> (self.status is Unconfigured <==> self.config is None)
        &&& self.credentials_invalid ==> self.config is Some && self.connection is None
        &&& self.status is InvalidCredentials ==> self.credentials_invalid
        &&& self.is_latched() && !self.is_over() ==> self.status is InvalidCredentials
        &&& self.shutdown ==> self.phase is Idle || self.phase is Stopped
        &&& self.phase is Exchanging || self.phase is Pinging ==> self.connection is Some
        &&& self.phase is Connecting || self.phase is Hooking ==> self.connection is None
            && self.config is Some && !self.is_latched()
        &&& self.phase is Hooking ==> self.has_hook
    }

    /// Which events can happen, by what the task is waiting for.
    pub open spec fn accepts(self, event: TaskEvent) -> bool {
        match event {
            TaskEvent::Command(_) | TaskEvent::Tick | TaskEvent::HandlesGone => self.phase is Idle,
            TaskEvent::Exchanged(_) => self.phase is Exchanging,
            TaskEvent::Pinged(_) => self.phase is Pinging,
            TaskEvent::ConnectEnded(_) => self.phase is Connecting,
            TaskEvent::HookEnded(_) => self.phase is Hooking,
        }
    }

    /// What becomes of the connection in use when it is given up in order.
    pub open spec fn quit(self) -> Seq<Effect> {
        if self.connection is Some {
            seq![Effect::Quit]
        } else {
            Seq::empty()
        }
    }

    /// The task after losing its connection.
    pub open spec fn disconnected(self) -> TaskModel {
        TaskModel {
            connection: None,
            status: ConnectionStatus::Disconnected,
            phase: TaskPhase::Idle,
            ..self
        }
    }

    /// The task after a connection came into use.
    pub open spec fn connected(self, capabilities: Capabilities) -> TaskModel {
        TaskModel {
            connection: Some(capabilities),
            status: ConnectionStatus::Connected { capabilities },
            credentials_invalid: false,
            phase: TaskPhase::Idle,
            ..self
        }
    }

    /// The task after a command, and what it does.
    pub open spec fn on_command(self, command: Command) -> (TaskModel, Seq<Effect>) {
        match command {
            Command::Configure(config) => if self.shutdown {
                (self, Seq::empty())
            } else {
                (
                    TaskModel {
                        config,
                        connection: None,
                        status: resting_status(config),
                        credentials_invalid: false,
                        ..self
                    },
                    self.quit() + publish(self.status, resting_status(config)),
                )
            },
            Command::Request(message) => if self.shutdown {
                (self, seq![Effect::Respond(Err(RequestError::Shutdown))])
            } else if self.connection is None {
                (self, seq![Effect::Respond(Err(RequestError::Disconnected))])
            } else {
                (
                    TaskModel { phase: TaskPhase::Exchanging, ..self },
                    seq![Effect::Exchange(message)],
                )
            },
            Command::Shutdown => (
                TaskModel {
                    connection: None,
                    status: ConnectionStatus::Shutdown,
                    shutdown: true,
                    ..self
                },
                self.quit() + publish(self.status, ConnectionStatus::Shutdown)
                    + seq![Effect::Acknowledge],
            ),
        }
    }

    /// The task after a tick, and what it does: ping a connection, else try
    /// to connect.
    pub open spec fn on_tick(self) -> (TaskModel, Seq<Effect>) {
        if self.shutdown {
            (self, Seq::empty())
        } else if self.connection is Some {
            (TaskModel { phase: TaskPhase::Pinging, ..self }, seq![Effect::Ping])
        } else if self.is_latched() || self.config is None {
            (self, Seq::empty())
        } else {
            (TaskModel { phase: TaskPhase::Connecting, ..self }, seq![Effect::Connect])
        }
    }

    /// The task after its last handle went, and what it does.
    pub open spec fn on_handles_gone(self) -> (TaskModel, Seq<Effect>) {
        (
            TaskModel {
                connection: None,
                status: ConnectionStatus::Shutdown,
                phase: TaskPhase::Stopped,
                ..self
            },
            self.quit() + publish(self.status, ConnectionStatus::Shutdown),
        )
    }

    /// The task after a request's exchange, and what it does: deliver the
    /// reply, and give up a connection that the server has closed.
    pub open spec fn on_exchanged(self, reply: Option<RawMessage>) -> (TaskModel, Seq<Effect>) {
        let lost = seq![Effect::Drop] + publish(self.status, ConnectionStatus::Disconnected);
        match reply {
            Some(raw) => if is_fatal_reply(raw) {
                (self.disconnected(), lost + seq![Effect::Respond(Ok(raw))])
            } else {
                (TaskModel { phase: TaskPhase::Idle, ..self }, seq![Effect::Respond(Ok(raw))])
            },
            None => (
                self.disconnected(),
                lost + seq![Effect::Respond(Err(RequestError::Disconnected))],
            ),
        }
    }

    /// The task after a ping, and what it does: give up the connection unless
    /// the server answered with a pong.
    pub open spec fn on_pinged(self, reply: Option<RawMessage>) -> (TaskModel, Seq<Effect>) {
        if reply matches Some(raw) && is_pong(raw) {
            (TaskModel { phase: TaskPhase::Idle, ..self }, Seq::empty())
        } else {
            (
                self.disconnected(),
                seq![Effect::Drop] + publish(self.status, ConnectionStatus::Disconnected),
            )
        }
    }

    /// The task after a connection attempt, and what it does: run the hook if
    /// there is one, else use the connection.
    pub open spec fn on_connect_ended(self, end: ConnectEnd) -> (TaskModel, Seq<Effect>) {
        match end {
            ConnectEnd::Connected(capabilities) => if self.has_hook {
                (
                    TaskModel { phase: TaskPhase::Hooking(capabilities), ..self },
                    seq![Effect::RunHook],
                )
            } else {
                (
                    self.connected(capabilities),
                    publish(self.status, ConnectionStatus::Connected { capabilities }),
                )
            },
            ConnectEnd::InvalidCredentials => (
                TaskModel {
                    credentials_invalid: true,
                    status: ConnectionStatus::InvalidCredentials,
                    phase: TaskPhase::Idle,
                    ..self
                },
                publish(self.status, ConnectionStatus::InvalidCredentials),
            ),
            ConnectEnd::Failed => (
                self.disconnected(),
                publish(self.status, ConnectionStatus::Disconnected),
            ),
        }
    }

    /// The task after the on-connect hook, and what it does: use the
    /// connection only if the hook succeeded.
    pub open spec fn on_hook_ended(self, end: HookEnd) -> (TaskModel, Seq<Effect>) {
        let capabilities = self.phase->Hooking_0;
        match end {
            HookEnd::Succeeded => (
                self.connected(capabilities),
                publish(self.status, ConnectionStatus::Connected { capabilities }),
            ),
            HookEnd::Failed => (
                self.disconnected(),
                seq![Effect::Quit] + publish(self.status, ConnectionStatus::Disconnected),
            ),
            HookEnd::TimedOut => (
                self.disconnected(),
                seq![Effect::Drop] + publish(self.status, ConnectionStatus::Disconnected),
            ),
        }
    }

    /// The task after an event, and what it does.
    pub open spec fn on_event(self, event: TaskEvent) -> (TaskModel, Seq<Effect>) {
        match event {
            TaskEvent::Command(command) => self.on_command(command),
            TaskEvent::Tick => self.on_tick(),
            TaskEvent::HandlesGone => self.on_handles_gone(),
            TaskEvent::Exchanged(reply) => self.on_exchanged(reply),
            TaskEvent::Pinged(reply) => self.on_pinged(reply),
            TaskEvent::ConnectEnded(end) => self.on_connect_ended(end),
            TaskEvent::HookEnded(end) => self.on_hook_ended(end),
        }
    }
}

/// The rules of the connection task.
#[derive(Debug)]
pub struct ClientTask {
    config: Option<ConnectionConfig>,
    connection: Option<Capabilities>,
    status: ConnectionStatus,
    invalid_credentials_policy: InvalidCredentialsPolicy,
    has_hook: bool,
    credentials_invalid: bool,
    shutdown: bool,
    phase: TaskPhase,
}

impl View for ClientTask {
    type V = TaskModel;

    closed spec fn view(&self) -> TaskModel {
        TaskModel {
            config: self.config,
            connection: self.connection,
            status: self.status,
            policy: self.invalid_credentials_policy,
            has_hook: self.has_hook,
            credentials_invalid: self.credentials_invalid,
            shutdown: self.shutdown,
            phase: self.phase,
        }
    }
}

impl ClientTask {
    /// Creates the task of a client that has not connected yet.
    pub fn new(
        config: Option<ConnectionConfig>,
        invalid_credentials_policy: InvalidCredentialsPolicy,
        has_hook: bool,
    ) -> (task: ClientTask)
        ensures
            task@ == (TaskModel {
                config,
                connection: None,
                status: resting_status(config),
                policy: invalid_credentials_policy,
                has_hook,
                credentials_invalid: false,
                shutdown: false,
                phase: TaskPhase::Idle,
            }),
            task@.is_valid(),
    {
        let status = if config.is_some() {
            ConnectionStatus::Disconnected
        } else {
            ConnectionStatus::Unconfigured
        };
        ClientTask {
            config,
            connection: None,
            status,
            invalid_credentials_policy,
            has_hook,
            credentials_invalid: false,
            shutdown: false,
            phase: TaskPhase::Idle,
        }
    }

    /// Returns what the task is waiting for.
    pub fn phase(&self) -> (phase: TaskPhase)
        ensures
            phase == self@.phase,
    {
        self.phase
    }

    /// Returns the current status.
    pub fn status(&self) -> (status: ConnectionStatus)
        ensures
            status == self@.status,
    {
        self.status
    }

    /// Returns the configuration to connect with.
    pub fn config(&self) -> (config: &Option<ConnectionConfig>)
        ensures
            *config == self@.config,
    {
        &self.config
    }

    /// Serves a command from a client handle.
    pub fn handle_command(&mut self, command: Command) -> (effects: Vec<Effect>)
        requires
            old(self)@.is_valid(),
            old(self)@.accepts(TaskEvent::Command(command)),
        ensures
            (final(self)@, effects@) == old(self)@.on_command(command),
            final(self)@.is_valid(),
    {
        let mut effects = Vec::new();
        match command {
            Command::Configure(config) => {
                if self.shutdown {
                    return effects;
                }
                self.quit(&mut effects);
                self.credentials_invalid = false;
                let status = if config.is_some() {
                    ConnectionStatus::Disconnected
                } else {
                    ConnectionStatus::Unconfigured
                };
                self.set_status(status, &mut effects);
                self.config = config;
            },
            Command::Request(message) => {
                if self.shutdown {
                    effects.push(Effect::Respond(Err(RequestError::Shutdown)));
                } else if self.connection.is_none() {
                    effects.push(Effect::Respond(Err(RequestError::Disconnected)));
                } else {
                    self.phase = TaskPhase::Exchanging;
                    effects.push(Effect::Exchange(message));
                }
            },
            Command::Shutdown => {
                self.quit(&mut effects);
                self.shutdown = true;
                self.set_status(ConnectionStatus::Shutdown, &mut effects);
                effects.push(Effect::Acknowledge);
            },
        }
        effects
    }

    /// Serves a tick of the ping timer.
    pub fn handle_tick(&mut self) -> (effects: Vec<Effect>)
        requires
            old(self)@.is_valid(),
            old(self)@.accepts(TaskEvent::Tick),
        ensures
            (final(self)@, effects@) == old(self)@.on_tick(),
            final(self)@.is_valid(),
    {
        let mut effects = Vec::new();
        if self.shutdown {
            return effects;
        }
        if self.connection.is_some() {
            self.phase = TaskPhase::Pinging;
            effects.push(Effect::Ping);
            return effects;
        }
        self.try_connect(&mut effects);
        effects
    }

    /// Winds the task down after the last handle went.
    pub fn handles_gone(&mut self) -> (effects: Vec<Effect>)
        requires
            old(self)@.is_valid(),
            old(self)@.accepts(TaskEvent::HandlesGone),
        ensures
            (final(self)@, effects@) == old(self)@.on_handles_gone(),
            final(self)@.is_valid(),
    {
        let mut effects = Vec::new();
        self.quit(&mut effects);
        self.set_status(ConnectionStatus::Shutdown, &mut effects);
        self.phase = TaskPhase::Stopped;
        effects
    }

    /// Takes the end of a request's exchange: the reply, or `None` if the
    /// transport failed or the request timeout passed.
    pub fn finish_exchange(&mut self, reply: Option<RawMessage>) -> (effects: Vec<Effect>)
        requires
            old(self)@.is_valid(),
            old(self)@.accepts(TaskEvent::Exchanged(reply)),
        ensures
            (final(self)@, effects@) == old(self)@.on_exchanged(reply),
            final(self)@.is_valid(),
    {
        let mut effects = Vec::new();
        self.phase = TaskPhase::Idle;
        match reply {
            Some(raw) => {
                // A fatal protocol error means the server has already closed
                // the connection; giving ours up keeps the status from
                // claiming Connected until the next ping notices.
                if reply_is_fatal(&raw) {
                    self.drop_connection(&mut effects);
                }
                effects.push(Effect::Respond(Ok(raw)));
            },
            None => {
                self.drop_connection(&mut effects);
                effects.push(Effect::Respond(Err(RequestError::Disconnected)));
            },
        }
        effects
    }

    /// Takes the end of a ping: the reply, or `None` if the transport failed
    /// or the request timeout passed.
    pub fn finish_ping(&mut self, reply: Option<RawMessage>) -> (effects: Vec<Effect>)
        requires
            old(self)@.is_valid(),
            old(self)@.accepts(TaskEvent::Pinged(reply)),
        ensures
            (final(self)@, effects@) == old(self)@.on_pinged(reply),
            final(self)@.is_valid(),
    {
        let mut effects = Vec::new();
        self.phase = TaskPhase::Idle;
        let alive = match reply {
            Some(raw) => ping_response(raw).is_ok(),
            None => false,
        };
        if !alive {
            self.drop_connection(&mut effects);
        }
        effects
    }

    /// Takes the end of a connection attempt.
    pub fn finish_connect(&mut self, end: ConnectEnd) -> (effects: Vec<Effect>)
        requires
            old(self)@.is_valid(),
            old(self)@.accepts(TaskEvent::ConnectEnded(end)),
        ensures
            (final(self)@, effects@) == old(self)@.on_connect_ended(end),
            final(self)@.is_valid(),
    {
        let mut effects = Vec::new();
        self.phase = TaskPhase::Idle;
        match end {
            ConnectEnd::Connected(capabilities) => {
                if self.has_hook {
                    self.phase = TaskPhase::Hooking(capabilities);
                    effects.push(Effect::RunHook);
                } else {
                    self.use_connection(capabilities, &mut effects);
                }
            },
            ConnectEnd::InvalidCredentials => {
                self.credentials_invalid = true;
                self.set_status(ConnectionStatus::InvalidCredentials, &mut effects);
            },
            ConnectEnd::Failed => {
                // A network failure is not a credentials problem; without
                // this, a failed attempt under the Retry policy would leave
                // a stale InvalidCredentials on the watch.
                self.set_status(ConnectionStatus::Disconnected, &mut effects);
            },
        }
        effects
    }

    /// Takes the end of the on-connect hook.
    pub fn finish_hook(&mut self, end: HookEnd) -> (effects: Vec<Effect>)
        requires
            old(self)@.is_valid(),
            old(self)@.accepts(TaskEvent::HookEnded(end)),
        ensures
            (final(self)@, effects@) == old(self)@.on_hook_ended(end),
            final(self)@.is_valid(),
    {
        let mut effects = Vec::new();
        if let TaskPhase::Hooking(capabilities) = self.phase {
            self.phase = TaskPhase::Idle;
            match end {
                HookEnd::Succeeded => {
                    self.use_connection(capabilities, &mut effects);
                },
                HookEnd::Failed => {
                    effects.push(Effect::Quit);
                    self.set_status(ConnectionStatus::Disconnected, &mut effects);
                },
                HookEnd::TimedOut => {
                    effects.push(Effect::Drop);
                    self.set_status(ConnectionStatus::Disconnected, &mut effects);
                },
            }
        }
        effects
    }

    /// Starts a connection attempt, unless one is pointless.
    fn try_connect(&mut self, effects: &mut Vec<Effect>)
        requires
            old(effects)@.len() == 0,
            !old(self)@.shutdown,
            old(self)@.connection is None,
        ensures
            (final(self)@, final(effects)@) == old(self)@.on_tick(),
    {
        if self.credentials_invalid && self.invalid_credentials_policy
            == InvalidCredentialsPolicy::Latch {
            return;
        }
        if self.config.is_none() {
            return;
        }
        self.phase = TaskPhase::Connecting;
        effects.push(Effect::Connect);
    }

    /// Puts a fresh connection into use.
    fn use_connection(&mut self, capabilities: Capabilities, effects: &mut Vec<Effect>)
        requires
            old(self)@.phase is Idle,
        ensures
            final(self)@ == old(self)@.connected(capabilities),
            final(effects)@ == old(effects)@ + publish(
                old(self)@.status,
                ConnectionStatus::Connected { capabilities },
            ),
    {
        self.credentials_invalid = false;
        self.set_status(ConnectionStatus::Connected { capabilities }, effects);
        self.connection = Some(capabilities);
    }

    /// Gives the connection in use up in order, if there is one.
    fn quit(&mut self, effects: &mut Vec<Effect>)
        ensures
            final(self)@ == (TaskModel { connection: None, ..old(self)@ }),
            final(effects)@ == old(effects)@ + old(self)@.quit(),
    {
        if self.connection.is_some() {
            self.connection = None;
            effects.push(Effect::Quit);
        }
    }

    /// Gives a broken connection up.
    fn drop_connection(&mut self, effects: &mut Vec<Effect>)
        requires
            old(self)@.phase is Idle,
        ensures
            final(self)@ == old(self)@.disconnected(),
            final(effects)@ == old(effects)@ + (seq![Effect::Drop] + publish(
                old(self)@.status,
                ConnectionStatus::Disconnected,
            )),
    {
        self.connection = None;
        effects.push(Effect::Drop);
        self.set_status(ConnectionStatus::Disconnected, effects);
    }

    /// Publishes a status, skipping the notification when it is unchanged.
    fn set_status(&mut self, status: ConnectionStatus, effects: &mut Vec<Effect>)
        ensures
            final(self)@ == (TaskModel { status, ..old(self)@ }),
            final(effects)@ == old(effects)@ + publish(old(self)@.status, status),
    {
        if self.status != status {
            self.status = status;
            effects.push(Effect::Publish(status));
        }
    }
}

/// Returns whether a reply reports an error after which the server has closed
/// the connection.
pub fn reply_is_fatal(raw: &RawMessage) -> (fatal: bool)
    ensures
        fatal == is_fatal_reply(*raw),
{
    if raw.message_type != ERROR_RESPONSE {
        return false;
    }
    match decode_error(raw) {
        Ok(code) => ErrorResponse::from_code(code).is_fatal(),
        Err(_) => false,
    }
}

} // verus!
