use bloop_client_framework::builder::{BloopClientBuilder, Span};
use bloop_client_framework::client::{
    reply_is_fatal, ClientTask, Command, ConnectEnd, ConnectionConfig, ConnectionStatus, Effect,
    HookEnd, InvalidCredentialsPolicy, TaskPhase,
};
use bloop_client_framework::operations::ping_request;
use bloop_client_framework::protocol::{Capabilities, RawMessage};
use bloop_client_framework::request::RequestError;
use bloop_client_framework::tls::RootCertSource;

const CAPABILITIES: Capabilities = Capabilities { bits: 1 };

fn config() -> ConnectionConfig {
    ConnectionConfig {
        host: "localhost".to_string(),
        port: 1,
        client_id: "client".to_string(),
        client_secret: "secret".to_string(),
    }
}

fn raw(message_type: u8, payload: &[u8]) -> RawMessage {
    RawMessage {
        message_type,
        payload: payload.to_vec(),
    }
}

fn is_connected(status: ConnectionStatus) -> bool {
    matches!(
        status,
        ConnectionStatus::Connected { capabilities, .. } if capabilities == CAPABILITIES
    )
}

/// A short name for each effect, in order.
fn names(effects: Vec<Effect>) -> Vec<String> {
    effects
        .into_iter()
        .map(|effect| match effect {
            Effect::Quit => "quit".to_string(),
            Effect::Drop => "drop".to_string(),
            Effect::Publish(status) => match status {
                ConnectionStatus::Unconfigured => "unconfigured".to_string(),
                ConnectionStatus::Disconnected => "disconnected".to_string(),
                ConnectionStatus::InvalidCredentials => "invalid".to_string(),
                ConnectionStatus::Shutdown => "shutdown".to_string(),
                _ => "connected".to_string(),
            },
            Effect::Respond(Ok(raw)) => format!("reply {}", raw.message_type),
            Effect::Respond(Err(RequestError::Shutdown)) => "refuse shutdown".to_string(),
            Effect::Respond(Err(RequestError::Disconnected)) => "refuse disconnected".to_string(),
            Effect::Respond(Err(_)) => "refuse".to_string(),
            Effect::Acknowledge => "acknowledge".to_string(),
            Effect::Exchange(raw) => format!("exchange {}", raw.message_type),
            Effect::Ping => "ping".to_string(),
            Effect::Connect => "connect".to_string(),
            Effect::RunHook => "hook".to_string(),
        })
        .collect()
}

fn task(policy: InvalidCredentialsPolicy, hook: bool) -> ClientTask {
    ClientTask::new(Some(config()), policy, hook)
}

fn connected() -> ClientTask {
    let mut task = task(InvalidCredentialsPolicy::Latch, false);
    assert_eq!(names(task.handle_tick()), ["connect"]);
    assert_eq!(
        names(task.finish_connect(ConnectEnd::Connected(CAPABILITIES))),
        ["connected"]
    );
    assert!(is_connected(task.status()));

    task
}

#[test]
fn requests_are_exchanged_while_connected() {
    let mut task = connected();

    assert_eq!(
        names(task.handle_command(Command::Request(raw(0x80, &[1])))),
        ["exchange 128"]
    );
    assert_eq!(task.phase(), TaskPhase::Exchanging);
    assert_eq!(
        names(task.finish_exchange(Some(raw(0x81, &[2])))),
        ["reply 129"]
    );
    assert_eq!(task.phase(), TaskPhase::Idle);
    assert!(is_connected(task.status()));
}

#[test]
fn requests_are_refused_without_a_connection() {
    let mut task = task(InvalidCredentialsPolicy::Latch, false);

    assert_eq!(
        names(task.handle_command(Command::Request(raw(0x80, &[])))),
        ["refuse disconnected"]
    );
    assert_eq!(task.status(), ConnectionStatus::Disconnected);
}

#[test]
fn lost_connection_reconnects() {
    let mut task = connected();

    task.handle_command(Command::Request(raw(0x80, &[])));
    assert_eq!(
        names(task.finish_exchange(None)),
        ["drop", "disconnected", "refuse disconnected"]
    );
    assert_eq!(names(task.handle_tick()), ["connect"]);
}

#[test]
fn fatal_reply_is_delivered_and_disconnects() {
    let mut task = connected();

    task.handle_command(Command::Request(raw(0x0c, &[0])));
    assert_eq!(
        names(task.finish_exchange(Some(raw(0x00, &[0])))),
        ["drop", "disconnected", "reply 0"]
    );

    let mut task = connected();

    task.handle_command(Command::Request(raw(0x08, &[0])));
    assert_eq!(
        names(task.finish_exchange(Some(raw(0x00, &[4])))),
        ["reply 0"]
    );
    assert!(is_connected(task.status()));
}

#[test]
fn fatal_replies_are_well_formed_fatal_errors() {
    for code in 0..=255 {
        assert_eq!(reply_is_fatal(&raw(0x00, &[code])), code < 4);
        assert!(!reply_is_fatal(&raw(0x09, &[code])));
    }

    assert!(!reply_is_fatal(&raw(0x00, &[])));
    assert!(!reply_is_fatal(&raw(0x00, &[0, 0])));
}

#[test]
fn pings_keep_the_connection() {
    let mut task = connected();

    assert_eq!(names(task.handle_tick()), ["ping"]);
    assert_eq!(task.phase(), TaskPhase::Pinging);
    assert!(task.finish_ping(Some(raw(0x06, &[]))).is_empty());
    assert!(is_connected(task.status()));

    for reply in [None, Some(raw(0x06, &[1])), Some(ping_request())] {
        let mut task = connected();
        task.handle_tick();

        assert_eq!(names(task.finish_ping(reply)), ["drop", "disconnected"]);
    }
}

#[test]
fn rejected_credentials_latch() {
    let mut task = task(InvalidCredentialsPolicy::Latch, false);

    task.handle_tick();
    assert_eq!(
        names(task.finish_connect(ConnectEnd::InvalidCredentials)),
        ["invalid"]
    );
    assert!(task.handle_tick().is_empty());
    assert!(task.handle_tick().is_empty());
    assert_eq!(task.status(), ConnectionStatus::InvalidCredentials);

    assert_eq!(
        names(task.handle_command(Command::Configure(Some(config())))),
        ["disconnected"]
    );
    assert_eq!(names(task.handle_tick()), ["connect"]);
    assert_eq!(
        names(task.finish_connect(ConnectEnd::Connected(CAPABILITIES))),
        ["connected"]
    );
}

#[test]
fn rejected_credentials_are_retried_by_policy() {
    let mut task = task(InvalidCredentialsPolicy::Retry, false);

    task.handle_tick();
    task.finish_connect(ConnectEnd::InvalidCredentials);
    assert_eq!(names(task.handle_tick()), ["connect"]);
    assert_eq!(
        names(task.finish_connect(ConnectEnd::Failed)),
        ["disconnected"]
    );
    assert_eq!(names(task.handle_tick()), ["connect"]);
    assert!(task.finish_connect(ConnectEnd::Failed).is_empty());
}

#[test]
fn hook_runs_before_connected() {
    let mut task = task(InvalidCredentialsPolicy::Latch, true);

    task.handle_tick();
    assert_eq!(
        names(task.finish_connect(ConnectEnd::Connected(CAPABILITIES))),
        ["hook"]
    );
    assert_eq!(task.phase(), TaskPhase::Hooking(CAPABILITIES));
    assert_eq!(task.status(), ConnectionStatus::Disconnected);
    assert_eq!(names(task.finish_hook(HookEnd::Succeeded)), ["connected"]);
    assert!(is_connected(task.status()));
}

#[test]
fn hook_failure_fails_the_attempt() {
    for (end, first) in [(HookEnd::Failed, "quit"), (HookEnd::TimedOut, "drop")] {
        let mut task = task(InvalidCredentialsPolicy::Latch, true);

        task.handle_tick();
        task.finish_connect(ConnectEnd::Connected(CAPABILITIES));
        assert_eq!(names(task.finish_hook(end)), [first]);
        assert_eq!(task.status(), ConnectionStatus::Disconnected);
        assert_eq!(names(task.handle_tick()), ["connect"]);
    }
}

#[test]
fn unconfigured_client_waits() {
    let mut task = ClientTask::new(None, InvalidCredentialsPolicy::Latch, false);

    assert_eq!(task.status(), ConnectionStatus::Unconfigured);
    assert!(task.config().is_none());
    assert!(task.handle_tick().is_empty());

    task.handle_command(Command::Configure(Some(config())));
    assert_eq!(task.status(), ConnectionStatus::Disconnected);
    assert_eq!(task.config().as_ref().unwrap().host, "localhost");
    assert_eq!(names(task.handle_tick()), ["connect"]);
}

#[test]
fn configuring_replaces_the_connection() {
    let mut task = connected();

    assert_eq!(
        names(task.handle_command(Command::Configure(Some(config())))),
        ["quit", "disconnected"]
    );

    let mut task = connected();

    assert_eq!(
        names(task.handle_command(Command::Configure(None))),
        ["quit", "unconfigured"]
    );
    assert!(task.handle_tick().is_empty());
}

#[test]
fn shutdown_is_final() {
    let mut task = connected();

    assert_eq!(
        names(task.handle_command(Command::Shutdown)),
        ["quit", "shutdown", "acknowledge"]
    );
    assert!(task.handle_tick().is_empty());
    assert!(task
        .handle_command(Command::Configure(Some(config())))
        .is_empty());
    assert_eq!(
        names(task.handle_command(Command::Request(raw(0x80, &[])))),
        ["refuse shutdown"]
    );
    assert_eq!(
        names(task.handle_command(Command::Shutdown)),
        ["acknowledge"]
    );
    assert_eq!(task.status(), ConnectionStatus::Shutdown);
    assert!(task.handles_gone().is_empty());
    assert_eq!(task.phase(), TaskPhase::Stopped);
}

#[test]
fn last_handle_winds_the_task_down() {
    let mut task = connected();

    assert_eq!(names(task.handles_gone()), ["quit", "shutdown"]);
    assert_eq!(task.phase(), TaskPhase::Stopped);
}

#[test]
fn settings_have_their_defaults() {
    let builder = BloopClientBuilder::<()>::default();

    assert!(builder.config.is_none());
    assert_eq!(builder.root_cert_source, RootCertSource::Platform);
    assert_eq!(builder.ping_interval, Span { secs: 3, nanos: 0 });
    assert_eq!(builder.io_timeout, Span::from_secs(5));
    assert_eq!(builder.request_timeout, Span::from_secs(60));
    assert_eq!(builder.max_payload_len, 16 * 1024 * 1024);
    assert_eq!(
        builder.invalid_credentials_policy,
        InvalidCredentialsPolicy::Latch
    );
    assert!(builder.on_connect.is_none());

    let parts = builder.build();
    assert_eq!(parts.task.status(), ConnectionStatus::Unconfigured);
}

#[test]
fn settings_can_be_changed() {
    let parts = BloopClientBuilder::new()
        .config(config())
        .root_cert_source(RootCertSource::DangerousDisabled)
        .ping_interval(Span {
            secs: 0,
            nanos: 100_000_000,
        })
        .io_timeout(Span::from_secs(1))
        .request_timeout(Span::from_secs(2))
        .max_payload_len(9)
        .invalid_credentials_policy(InvalidCredentialsPolicy::Retry)
        .on_connect("hook")
        .build();

    assert_eq!(parts.root_cert_source, RootCertSource::DangerousDisabled);
    assert_eq!(parts.ping_interval.nanos, 100_000_000);
    assert_eq!(parts.options.io_timeout, Span::from_secs(1));
    assert_eq!(parts.request_timeout, Span::from_secs(2));
    assert_eq!(parts.options.max_payload_len, 9);
    assert_eq!(parts.on_connect, Some("hook"));

    let mut task = parts.task;
    assert_eq!(task.status(), ConnectionStatus::Disconnected);
    task.handle_tick();
    task.finish_connect(ConnectEnd::InvalidCredentials);
    assert_eq!(names(task.handle_tick()), ["connect"]);
    assert_eq!(
        names(task.finish_connect(ConnectEnd::Connected(CAPABILITIES))),
        ["hook"]
    );
}
