//! What holds of the connection task over any course of events.

use vstd::prelude::*;

use crate::client::{
    is_fatal_reply, is_pong, reply_is_fatal, ClientTask, Command, ConnectEnd, ConnectionConfig,
    ConnectionStatus, Effect, HookEnd, InvalidCredentialsPolicy, TaskEvent, TaskModel, TaskPhase,
};
use crate::protocol::{Capabilities, RawMessage};
use crate::request::{configure_outcome, request_outcome, Delivery, RequestError};

verus! {

impl TaskModel {
    /// Whether a course of events can happen, each event where the task is
    /// waiting for it.
    pub open spec fn accepts_all(self, events: Seq<TaskEvent>) -> bool
        decreases events.len(),
    {
        events.len() == 0 || (self.accepts(events[0]) && self.on_event(events[0]).0.accepts_all(
            events.drop_first(),
        ))
    }

    /// The task after a course of events.
    pub open spec fn after(self, events: Seq<TaskEvent>) -> TaskModel
        decreases events.len(),
    {
        if events.len() == 0 {
            self
        } else {
            self.on_event(events[0]).0.after(events.drop_first())
        }
    }

    /// What the task does over a course of events.
    pub open spec fn effects_of(self, events: Seq<TaskEvent>) -> Seq<Effect>
        decreases events.len(),
    {
        if events.len() == 0 {
            Seq::empty()
        } else {
            self.on_event(events[0]).1 + self.on_event(events[0]).0.effects_of(events.drop_first())
        }
    }
}

/// Whether an event is a request.
pub open spec fn is_request(event: TaskEvent) -> bool {
    event matches TaskEvent::Command(command) && command is Request
}

/// Whether an event is the command to shut down.
pub open spec fn is_shutdown(event: TaskEvent) -> bool {
    event matches TaskEvent::Command(command) && command is Shutdown
}

/// Whether an event replaces the configuration.
pub open spec fn is_configure(event: TaskEvent) -> bool {
    event matches TaskEvent::Command(command) && command is Configure
}

/// How many requests are among the events.
pub open spec fn requests(events: Seq<TaskEvent>) -> nat
    decreases events.len(),
{
    if events.len() == 0 {
        0
    } else {
        (if is_request(events[0]) {
            1nat
        } else {
            0
        }) + requests(events.drop_first())
    }
}

/// How many commands to shut down are among the events.
pub open spec fn shutdowns(events: Seq<TaskEvent>) -> nat
    decreases events.len(),
{
    if events.len() == 0 {
        0
    } else {
        (if is_shutdown(events[0]) {
            1nat
        } else {
            0
        }) + shutdowns(events.drop_first())
    }
}

/// How many responses are among the effects.
pub open spec fn responses(effects: Seq<Effect>) -> nat
    decreases effects.len(),
{
    if effects.len() == 0 {
        0
    } else {
        responses(effects.drop_last()) + (if effects.last() is Respond {
            1nat
        } else {
            0
        })
    }
}

/// How many acknowledgements are among the effects.
pub open spec fn acknowledgements(effects: Seq<Effect>) -> nat
    decreases effects.len(),
{
    if effects.len() == 0 {
        0
    } else {
        acknowledgements(effects.drop_last()) + (if effects.last() is Acknowledge {
            1nat
        } else {
            0
        })
    }
}

/// What the watchers see after the effects, given what they saw before.
pub open spec fn watched(status: ConnectionStatus, effects: Seq<Effect>) -> ConnectionStatus
    decreases effects.len(),
{
    if effects.len() == 0 {
        status
    } else {
        match effects.last() {
            Effect::Publish(published) => published,
            _ => watched(status, effects.drop_last()),
        }
    }
}

/// Whether every publication among the effects is a change to the watchers.
pub open spec fn publishes_changes(status: ConnectionStatus, effects: Seq<Effect>) -> bool {
    forall|i: int|
        0 <= i < effects.len() ==> (#[trigger] effects[i] matches Effect::Publish(published)
            ==> published != watched(status, effects.take(i)))
}

/// Whether there is a connection after the effects, given whether there was
/// one before; nothing if an effect needs a connection and there is none, or
/// would replace one.
pub open spec fn connection_after(connection: bool, effects: Seq<Effect>) -> Option<bool>
    decreases effects.len(),
{
    if effects.len() == 0 {
        Some(connection)
    } else {
        match connection_after(connection, effects.drop_last()) {
            Some(connection) => match effects.last() {
                Effect::Quit | Effect::Drop => if connection {
                    Some(false)
                } else {
                    None
                },
                Effect::Exchange(_) | Effect::Ping | Effect::RunHook => if connection {
                    Some(true)
                } else {
                    None
                },
                Effect::Connect => if connection {
                    None
                } else {
                    Some(false)
                },
                _ => Some(connection),
            },
            None => None,
        }
    }
}

/// Whether the task waits for an effect's end.
pub open spec fn is_awaited(effect: Effect) -> bool {
    effect is Exchange || effect is Ping || effect is Connect || effect is RunHook
}

/// One event keeps the task valid.
pub proof fn law_valid_after_event(task: TaskModel, event: TaskEvent)
    requires
        task.is_valid(),
        task.accepts(event),
    ensures
        task.on_event(event).0.is_valid(),
{
}

/// The task is valid after any course of events: it is `Connected` exactly
/// while it uses a connection, `Unconfigured` exactly without a configuration,
/// and `Shutdown` exactly once it was told to end.
pub proof fn law_always_valid(task: TaskModel, events: Seq<TaskEvent>)
    requires
        task.is_valid(),
        task.accepts_all(events),
    ensures
        task.after(events).is_valid(),
    decreases events.len(),
{
    if events.len() > 0 {
        law_always_valid(task.on_event(events[0]).0, events.drop_first());
    }
}

/// What joined effects contain, one of the two contains.
proof fn lemma_contains_split(left: Seq<Effect>, right: Seq<Effect>, effect: Effect)
    requires
        (left + right).contains(effect),
    ensures
        left.contains(effect) || right.contains(effect),
{
    let i = choose|i: int| 0 <= i < (left + right).len() && (left + right)[i] == effect;
    if i < left.len() {
        assert(left[i] == effect);
    } else {
        assert(right[i - left.len()] == effect);
    }
}

/// A shutdown is final: whatever happens later, the status stays `Shutdown`,
/// there is no connection, and all the task does is refuse requests with
/// `Shutdown` and acknowledge further shutdowns.
pub proof fn law_shutdown_is_final(task: TaskModel, events: Seq<TaskEvent>)
    requires
        task.is_valid(),
        task.shutdown,
        task.accepts_all(events),
    ensures
        task.after(events).shutdown,
        task.after(events).status is Shutdown,
        task.after(events).connection is None,
        forall|effect: Effect| #[trigger]
            task.effects_of(events).contains(effect) ==> effect is Acknowledge || effect
                == Effect::Respond(Err(RequestError::Shutdown)),
    decreases events.len(),
{
    if events.len() > 0 {
        let (next, effects) = task.on_event(events[0]);
        let rest = events.drop_first();
        law_shutdown_is_final(next, rest);
        assert forall|effect: Effect| #[trigger]
            task.effects_of(events).contains(effect) implies effect is Acknowledge || effect
            == Effect::Respond(Err(RequestError::Shutdown)) by {
            lemma_contains_split(effects, next.effects_of(rest), effect);
        }
    }
}

/// After a shutdown every operation on a surviving handle gives `Shutdown`:
/// a request, whatever becomes of it, as the task answers it with nothing
/// else; and a new configuration, which the task drops.
pub proof fn law_shutdown_refuses_operations(
    task: TaskModel,
    events: Seq<TaskEvent>,
    message: RawMessage,
    delivery: Delivery,
    config: Option<ConnectionConfig>,
    taken: bool,
)
    requires
        task.is_valid(),
        task.shutdown,
        task.accepts_all(events),
        delivery matches Delivery::Answered(response) ==> task.after(events).on_command(
            Command::Request(message),
        ).1.contains(Effect::Respond(response)),
    ensures
        ({
            let later = task.after(events);
            &&& later.on_command(Command::Request(message)).0 == later
            &&& request_outcome(delivery, later.status) == Err::<RawMessage, RequestError>(
                RequestError::Shutdown,
            )
            &&& later.on_command(Command::Configure(config)) == (later, Seq::<Effect>::empty())
            &&& configure_outcome(taken, later.status) == Err::<(), RequestError>(
                RequestError::Shutdown,
            )
        }),
{
    law_shutdown_is_final(task, events);
}

/// Rejected credentials latch the client: until a new configuration arrives
/// it does not try to connect, and reports `InvalidCredentials` unless it is
/// shut down.
pub proof fn law_latch_holds(task: TaskModel, events: Seq<TaskEvent>)
    requires
        task.is_valid(),
        task.is_latched(),
        task.accepts_all(events),
        forall|i: int| 0 <= i < events.len() ==> !is_configure(#[trigger] events[i]),
    ensures
        task.after(events).is_latched(),
        task.after(events).status is InvalidCredentials || task.after(events).status is Shutdown,
        !task.effects_of(events).contains(Effect::Connect),
    decreases events.len(),
{
    law_always_valid(task, events);
    if events.len() > 0 {
        let (next, effects) = task.on_event(events[0]);
        let rest = events.drop_first();
        assert(!is_configure(events[0]));
        assert forall|i: int| 0 <= i < rest.len() implies !is_configure(#[trigger] rest[i]) by {
            assert(rest[i] == events[i + 1]);
        }
        law_latch_holds(next, rest);
        if task.effects_of(events).contains(Effect::Connect) {
            lemma_contains_split(effects, next.effects_of(rest), Effect::Connect);
        }
    }
}

/// A client without a configuration waits for one: until then it does not try
/// to connect, and reports `Unconfigured` unless it is shut down.
pub proof fn law_unconfigured_waits(task: TaskModel, events: Seq<TaskEvent>)
    requires
        task.is_valid(),
        task.config is None,
        task.accepts_all(events),
        forall|i: int| 0 <= i < events.len() ==> !is_configure(#[trigger] events[i]),
    ensures
        task.after(events).config is None,
        task.after(events).status is Unconfigured || task.after(events).status is Shutdown,
        !task.effects_of(events).contains(Effect::Connect),
    decreases events.len(),
{
    law_always_valid(task, events);
    if events.len() > 0 {
        let (next, effects) = task.on_event(events[0]);
        let rest = events.drop_first();
        assert(!is_configure(events[0]));
        assert forall|i: int| 0 <= i < rest.len() implies !is_configure(#[trigger] rest[i]) by {
            assert(rest[i] == events[i + 1]);
        }
        law_unconfigured_waits(next, rest);
        if task.effects_of(events).contains(Effect::Connect) {
            lemma_contains_split(effects, next.effects_of(rest), Effect::Connect);
        }
    }
}

/// A new configuration replaces the old one whatever came before: the
/// connection goes, a latch is cleared, and the next tick connects with the
/// new configuration.
pub proof fn law_configure_reconnects(task: TaskModel, config: ConnectionConfig)
    requires
        task.is_valid(),
        task.phase is Idle,
        !task.shutdown,
    ensures
        ({
            let (configured, effects) = task.on_command(Command::Configure(Some(config)));
            &&& !configured.has_connection()
            &&& configured.status is Disconnected
            &&& !configured.is_latched()
            &&& effects.contains(Effect::Quit) <==> task.connection is Some
            &&& configured.on_tick().0.phase is Connecting
            &&& configured.on_tick().0.config == Some(config)
            &&& configured.on_tick().1 == seq![Effect::Connect]
        }),
{
    let (configured, effects) = task.on_command(Command::Configure(Some(config)));
    if task.connection is Some {
        assert(effects[0] == Effect::Quit);
    }
}

/// Without a configuration the client is unconfigured, whatever came before.
pub proof fn law_configure_none_unconfigures(task: TaskModel)
    requires
        task.is_valid(),
        task.phase is Idle,
        !task.shutdown,
    ensures
        ({
            let configured = task.on_command(Command::Configure(None)).0;
            &&& configured.status is Unconfigured
            &&& !configured.has_connection()
            &&& configured.on_tick() == (configured, Seq::<Effect>::empty())
        }),
{
}

/// Whether the end of an exchange or of a ping loses the connection: no reply
/// came, the reply reports an error after which the server closed the
/// connection, or it does not answer the ping.
pub open spec fn loses_connection(event: TaskEvent) -> bool {
    match event {
        TaskEvent::Exchanged(reply) => reply matches Some(raw) ==> is_fatal_reply(raw),
        TaskEvent::Pinged(reply) => reply matches Some(raw) ==> !is_pong(raw),
        _ => false,
    }
}

/// A lost connection is replaced: it goes, the status is `Disconnected`, and
/// the next tick connects again with the same configuration. A connection
/// that an exchange or a ping does not lose stays in use.
pub proof fn law_lost_connection_reconnects(task: TaskModel, event: TaskEvent)
    requires
        task.is_valid(),
        event is Exchanged || event is Pinged,
        task.accepts(event),
    ensures
        ({
            let (next, effects) = task.on_event(event);
            &&& next.config == task.config
            &&& if loses_connection(event) {
                &&& next.status is Disconnected
                &&& !next.has_connection()
                &&& effects.contains(Effect::Drop)
                &&& next.on_tick().0.phase is Connecting
                &&& next.on_tick().1 == seq![Effect::Connect]
            } else {
                &&& next.status == task.status
                &&& next.connection == task.connection
                &&& next.on_tick().1 == seq![Effect::Ping]
            }
        }),
{
    if loses_connection(event) {
        assert(task.on_event(event).1[0] == Effect::Drop);
    }
}

/// After a failed attempt the next tick tries again.
pub proof fn law_failed_attempt_is_retried(task: TaskModel)
    requires
        task.is_valid(),
        task.phase is Connecting,
    ensures
        task.on_connect_ended(ConnectEnd::Failed).0.on_tick().1 == seq![Effect::Connect],
{
}

/// After rejected credentials the next tick tries again exactly under the
/// `Retry` policy.
pub proof fn law_rejection_follows_policy(task: TaskModel)
    requires
        task.is_valid(),
        task.phase is Connecting,
    ensures
        ({
            let rejected = task.on_connect_ended(ConnectEnd::InvalidCredentials).0;
            &&& rejected.status is InvalidCredentials
            &&& task.policy == InvalidCredentialsPolicy::Retry ==> rejected.on_tick().1
                == seq![Effect::Connect]
            &&& task.policy == InvalidCredentialsPolicy::Latch ==> rejected.on_tick()
                == (rejected, Seq::<Effect>::empty())
        }),
{
}

/// The responses of joined effects add up.
proof fn lemma_responses_join(left: Seq<Effect>, right: Seq<Effect>)
    ensures
        responses(left + right) == responses(left) + responses(right),
        acknowledgements(left + right) == acknowledgements(left) + acknowledgements(right),
    decreases right.len(),
{
    if right.len() == 0 {
        assert(left + right =~= left);
    } else {
        assert((left + right).drop_last() =~= left + right.drop_last());
        lemma_responses_join(left, right.drop_last());
    }
}

/// Counts over at most three effects.
proof fn lemma_count_few(effects: Seq<Effect>)
    requires
        effects.len() <= 3,
    ensures
        responses(effects) == (if effects.len() > 0 && effects[0] is Respond {
            1nat
        } else {
            0
        }) + (if effects.len() > 1 && effects[1] is Respond {
            1nat
        } else {
            0
        }) + (if effects.len() > 2 && effects[2] is Respond {
            1nat
        } else {
            0
        }),
        acknowledgements(effects) == (if effects.len() > 0 && effects[0] is Acknowledge {
            1nat
        } else {
            0
        }) + (if effects.len() > 1 && effects[1] is Acknowledge {
            1nat
        } else {
            0
        }) + (if effects.len() > 2 && effects[2] is Acknowledge {
            1nat
        } else {
            0
        }),
{
    reveal_with_fuel(responses, 4);
    reveal_with_fuel(acknowledgements, 4);
}

/// Every request gets exactly one response and every shutdown exactly one
/// acknowledgement: over any course of events, the responses are as many as
/// the requests, but for one that is still being exchanged.
pub proof fn law_every_request_is_answered_once(task: TaskModel, events: Seq<TaskEvent>)
    requires
        task.is_valid(),
        task.accepts_all(events),
    ensures
        responses(task.effects_of(events)) + (if task.after(events).phase is Exchanging {
            1nat
        } else {
            0
        }) == requests(events) + (if task.phase is Exchanging {
            1nat
        } else {
            0
        }),
        acknowledgements(task.effects_of(events)) == shutdowns(events),
    decreases events.len(),
{
    if events.len() > 0 {
        let (next, effects) = task.on_event(events[0]);
        let rest = events.drop_first();
        law_valid_after_event(task, events[0]);
        law_every_request_is_answered_once(next, rest);
        lemma_responses_join(effects, next.effects_of(rest));
        lemma_count_few(effects);
    }
}

/// What the watchers see after joined effects is what they see after one and
/// then the other.
proof fn lemma_watched_join(status: ConnectionStatus, left: Seq<Effect>, right: Seq<Effect>)
    ensures
        watched(status, left + right) == watched(watched(status, left), right),
    decreases right.len(),
{
    if right.len() == 0 {
        assert(left + right =~= left);
    } else {
        assert((left + right).drop_last() =~= left + right.drop_last());
        lemma_watched_join(status, left, right.drop_last());
    }
}

/// One event publishes the status it leads to, if that is a change.
proof fn lemma_event_publishes(task: TaskModel, event: TaskEvent)
    requires
        task.is_valid(),
        task.accepts(event),
    ensures
        watched(task.status, task.on_event(event).1) == task.on_event(event).0.status,
        publishes_changes(task.status, task.on_event(event).1),
{
    let effects = task.on_event(event).1;
    reveal_with_fuel(watched, 4);
    assert forall|i: int| 0 <= i < effects.len() implies (#[trigger] effects[i] matches
        Effect::Publish(published) ==> published != watched(task.status, effects.take(i))) by {
        let before = effects.take(i);
        assert(forall|j: int| 0 <= j < before.len() ==> before[j] == effects[j]);
        assert(i <= 2);
    }
}

/// The watchers see the task's status at all times, and are told only of
/// changes.
pub proof fn law_watchers_follow(task: TaskModel, events: Seq<TaskEvent>)
    requires
        task.is_valid(),
        task.accepts_all(events),
    ensures
        watched(task.status, task.effects_of(events)) == task.after(events).status,
        publishes_changes(task.status, task.effects_of(events)),
    decreases events.len(),
{
    if events.len() > 0 {
        let (next, effects) = task.on_event(events[0]);
        let rest = events.drop_first();
        let rest_effects = next.effects_of(rest);
        let all = effects + rest_effects;
        law_valid_after_event(task, events[0]);
        lemma_event_publishes(task, events[0]);
        law_watchers_follow(next, rest);
        lemma_watched_join(task.status, effects, rest_effects);
        assert forall|i: int| 0 <= i < all.len() implies (#[trigger] all[i] matches Effect::Publish(
            published,
        ) ==> published != watched(task.status, all.take(i))) by {
            if i < effects.len() {
                assert(effects[i] == all[i]);
                assert(all.take(i) =~= effects.take(i));
            } else {
                let j = i - effects.len();
                assert(rest_effects[j] == all[i]);
                assert(all.take(i) =~= effects + rest_effects.take(j));
                lemma_watched_join(task.status, effects, rest_effects.take(j));
            }
        }
    }
}

/// Whether an event brings a fresh connection with the given capabilities into
/// use: the end of the attempt if there is no on-connect hook, else only the
/// hook's success on it.
pub open spec fn brings_into_use(
    task: TaskModel,
    event: TaskEvent,
    capabilities: Capabilities,
) -> bool {
    if task.has_hook {
        event == TaskEvent::HookEnded(HookEnd::Succeeded) && task.phase == TaskPhase::Hooking(
            capabilities,
        )
    } else {
        event == TaskEvent::ConnectEnded(ConnectEnd::Connected(capabilities))
    }
}

/// `Connected` is published exactly when a fresh connection comes into use, so
/// never before an on-connect hook succeeded on it.
pub proof fn law_connected_needs_the_hook(
    task: TaskModel,
    event: TaskEvent,
    capabilities: Capabilities,
)
    requires
        task.is_valid(),
        task.accepts(event),
    ensures
        task.on_event(event).1.contains(
            Effect::Publish(ConnectionStatus::Connected { capabilities }),
        ) <==> brings_into_use(task, event, capabilities),
        brings_into_use(task, event, capabilities) ==> task.on_event(event).0.connection == Some(
            capabilities,
        ),
{
    let effects = task.on_event(event).1;
    let published = Effect::Publish(ConnectionStatus::Connected { capabilities });
    if brings_into_use(task, event, capabilities) {
        assert(effects[0] == published);
    }
}

/// A hook that fails or takes too long fails the attempt: the fresh connection
/// goes, the status is `Disconnected`, and the next tick tries again.
pub proof fn law_hook_failure_fails_the_attempt(task: TaskModel, end: HookEnd)
    requires
        task.is_valid(),
        task.phase is Hooking,
        end != HookEnd::Succeeded,
    ensures
        task.on_hook_ended(end).0.status is Disconnected,
        !task.on_hook_ended(end).0.has_connection(),
        task.on_hook_ended(end).0.on_tick().1 == seq![Effect::Connect],
{
}

/// The task never acts on a connection it does not have and never replaces one
/// it has: what it does at an event keeps to there being at most one.
pub proof fn law_one_connection_at_a_time(task: TaskModel, event: TaskEvent)
    requires
        task.is_valid(),
        task.accepts(event),
    ensures
        connection_after(
            task.has_connection() || (event matches TaskEvent::ConnectEnded(end)
                && end is Connected),
            task.on_event(event).1,
        ) == Some(task.on_event(event).0.has_connection()),
{
    reveal_with_fuel(connection_after, 4);
}

/// Exchanges are strictly serialized: an effect that is awaited is the last one
/// of its event, the task is busy exactly after such an event, and a busy task
/// takes nothing but the end it waits for.
pub proof fn law_exchanges_are_serialized(task: TaskModel, event: TaskEvent)
    requires
        task.is_valid(),
        task.accepts(event),
    ensures
        ({
            let (next, effects) = task.on_event(event);
            &&& forall|i: int|
                0 <= i < effects.len() ==> (is_awaited(#[trigger] effects[i]) ==> i == effects.len()
                    - 1)
            &&& (effects.len() > 0 && is_awaited(effects.last())) <==> !(next.phase is Idle
                || next.phase is Stopped)
            &&& effects.len() > 0 ==> (effects.last() is Exchange <==> next.phase is Exchanging)
            &&& effects.len() > 0 ==> (effects.last() is Ping <==> next.phase is Pinging)
            &&& effects.len() > 0 ==> (effects.last() is Connect <==> next.phase is Connecting)
            &&& effects.len() > 0 ==> (effects.last() is RunHook <==> next.phase is Hooking)
        }),
{
}

/// Dropping the last handle winds the task down: a connection is announced to
/// be over, and watchers see a terminal status.
pub proof fn law_last_handle_winds_down(task: TaskModel)
    requires
        task.is_valid(),
        task.phase is Idle,
    ensures
        task.on_handles_gone().0.status is Shutdown,
        !task.on_handles_gone().0.has_connection(),
        task.connection is Some ==> task.on_handles_gone().1[0] is Quit,
        forall|event: TaskEvent| !#[trigger] task.on_handles_gone().0.accepts(event),
{
}

/// A reply is delivered unchanged, even if it reports an error after which
/// the server closed the connection; then the connection goes first.
pub proof fn law_reply_is_delivered(task: TaskModel, raw: RawMessage)
    requires
        task.is_valid(),
        task.phase is Exchanging,
    ensures
        task.on_exchanged(Some(raw)).1.last() == Effect::Respond(Ok(raw)),
        task.on_exchanged(Some(raw)).0.status is Connected <==> !is_fatal_reply(raw),
{
}

/// The executable task does what its model says: each method takes the task
/// and its effects where the event does.
pub proof fn law_task_follows_its_model()
    ensures
        forall|task: &mut ClientTask, command: Command, effects: Vec<Effect>| #[trigger]
            call_ensures(ClientTask::handle_command, (task, command), effects) ==> (
            final(task)@,
            effects@,
        ) == task@.on_event(TaskEvent::Command(command)),
        forall|task: &mut ClientTask, effects: Vec<Effect>| #[trigger]
            call_ensures(ClientTask::handle_tick, (task,), effects) ==> (final(task)@, effects@)
                == task@.on_event(TaskEvent::Tick),
        forall|task: &mut ClientTask, effects: Vec<Effect>| #[trigger]
            call_ensures(ClientTask::handles_gone, (task,), effects) ==> (final(task)@, effects@)
                == task@.on_event(TaskEvent::HandlesGone),
        forall|task: &mut ClientTask, reply: Option<RawMessage>, effects: Vec<Effect>| #[trigger]
            call_ensures(ClientTask::finish_exchange, (task, reply), effects) ==> (
            final(task)@,
            effects@,
        ) == task@.on_event(TaskEvent::Exchanged(reply)),
        forall|task: &mut ClientTask, reply: Option<RawMessage>, effects: Vec<Effect>| #[trigger]
            call_ensures(ClientTask::finish_ping, (task, reply), effects) ==> (
            final(task)@,
            effects@,
        ) == task@.on_event(TaskEvent::Pinged(reply)),
        forall|task: &mut ClientTask, end: ConnectEnd, effects: Vec<Effect>| #[trigger]
            call_ensures(ClientTask::finish_connect, (task, end), effects) ==> (
            final(task)@,
            effects@,
        ) == task@.on_event(TaskEvent::ConnectEnded(end)),
        forall|task: &mut ClientTask, end: HookEnd, effects: Vec<Effect>| #[trigger]
            call_ensures(ClientTask::finish_hook, (task, end), effects) ==> (final(task)@, effects@)
                == task@.on_event(TaskEvent::HookEnded(end)),
{
}

/// A fresh client has what it was made with and nothing else: its first tick
/// connects exactly if it has a configuration.
pub proof fn law_fresh_client(
    config: Option<ConnectionConfig>,
    policy: InvalidCredentialsPolicy,
    has_hook: bool,
    task: ClientTask,
)
    requires
        call_ensures(ClientTask::new, (config, policy, has_hook), task),
    ensures
        task@.is_valid(),
        task@.phase is Idle,
        task@.config == config,
        task@.policy == policy,
        task@.has_hook == has_hook,
        task@.connection is None,
        !task@.credentials_invalid,
        !task@.shutdown,
        config is Some ==> task@.status is Disconnected && task@.on_event(TaskEvent::Tick).1
            == seq![Effect::Connect],
        config is None ==> task@.status is Unconfigured && task@.on_event(TaskEvent::Tick).1
            == Seq::<Effect>::empty(),
{
}

/// What the task shows of itself is what it goes by.
pub proof fn law_task_shows_itself(
    task: ClientTask,
    phase: TaskPhase,
    status: ConnectionStatus,
    config: &Option<ConnectionConfig>,
)
    requires
        call_ensures(ClientTask::phase, (&task,), phase),
        call_ensures(ClientTask::status, (&task,), status),
        call_ensures(ClientTask::config, (&task,), config),
    ensures
        phase == task@.phase,
        status == task@.status,
        *config == task@.config,
{
}

/// The client's policy and its hook are those it was made with, for life.
pub proof fn law_settings_never_change(task: TaskModel, events: Seq<TaskEvent>)
    ensures
        task.after(events).policy == task.policy,
        task.after(events).has_hook == task.has_hook,
    decreases events.len(),
{
    if events.len() > 0 {
        law_settings_never_change(task.on_event(events[0]).0, events.drop_first());
    }
}

/// A client with a hook runs it on every connection of its life: whenever an
/// attempt succeeds, first or later, the hook runs and nothing is published,
/// and only its success on that very connection publishes `Connected`.
pub proof fn law_every_connection_runs_the_hook(
    task: TaskModel,
    events: Seq<TaskEvent>,
    capabilities: Capabilities,
)
    requires
        task.is_valid(),
        task.has_hook,
        task.accepts_all(events),
        task.after(events).phase is Connecting,
    ensures
        ({
            let later = task.after(events);
            let (hooking, effects) = later.on_event(
                TaskEvent::ConnectEnded(ConnectEnd::Connected(capabilities)),
            );
            let (connected, published) = hooking.on_event(TaskEvent::HookEnded(HookEnd::Succeeded));
            &&& effects == seq![Effect::RunHook]
            &&& hooking.status == later.status
            &&& hooking.connection is None
            &&& hooking.accepts(TaskEvent::HookEnded(HookEnd::Succeeded))
            &&& published == seq![
                Effect::Publish(ConnectionStatus::Connected { capabilities }),
            ]
            &&& connected.connection == Some(capabilities)
        }),
{
    law_settings_never_change(task, events);
    law_always_valid(task, events);
}

/// The configuration is the one given last, until the client is shut down.
pub proof fn law_configuration_is_the_last_given(task: TaskModel, event: TaskEvent)
    requires
        task.is_valid(),
        task.accepts(event),
    ensures
        !task.shutdown ==> (event matches TaskEvent::Command(Command::Configure(config))
            ==> task.on_event(event).0.config == config),
        !(event matches TaskEvent::Command(Command::Configure(_))) ==> task.on_event(event).0.config
            == task.config,
        task.shutdown ==> task.on_event(event).0.config == task.config,
{
}

/// The command to shut down always takes effect, connected or not, and is the
/// only thing that shuts a client down: afterwards the status is `Shutdown`,
/// there is no connection, and a tick does nothing.
pub proof fn law_shutdown_takes_effect(task: TaskModel, event: TaskEvent)
    requires
        task.is_valid(),
        task.accepts(event),
    ensures
        task.on_event(event).0.shutdown <==> task.shutdown || event == TaskEvent::Command(
            Command::Shutdown,
        ),
        event == TaskEvent::Command(Command::Shutdown) ==> {
            let (next, effects) = task.on_event(event);
            &&& next.status is Shutdown
            &&& next.connection is None
            &&& next.phase is Idle
            &&& effects.contains(Effect::Acknowledge)
            &&& !(task.status is Shutdown) ==> effects.contains(
                Effect::Publish(ConnectionStatus::Shutdown),
            )
            &&& next.on_event(TaskEvent::Tick) == (next, Seq::<Effect>::empty())
        },
{
    if event == TaskEvent::Command(Command::Shutdown) {
        let effects = task.on_event(event).1;
        assert(effects[effects.len() - 1] == Effect::Acknowledge);
        if !(task.status is Shutdown) {
            assert(effects[effects.len() - 2] == Effect::Publish(ConnectionStatus::Shutdown));
        }
    }
}

/// Over any course of events the client is shut down exactly if it was, or if
/// the command is among them.
pub proof fn law_shut_down_by_command_only(task: TaskModel, events: Seq<TaskEvent>)
    requires
        task.is_valid(),
        task.accepts_all(events),
    ensures
        task.after(events).shutdown <==> task.shutdown || events.contains(
            TaskEvent::Command(Command::Shutdown),
        ),
    decreases events.len(),
{
    let command = TaskEvent::Command(Command::Shutdown);
    if events.len() > 0 {
        let rest = events.drop_first();
        law_valid_after_event(task, events[0]);
        law_shut_down_by_command_only(task.on_event(events[0]).0, rest);
        law_shutdown_takes_effect(task, events[0]);
        if rest.contains(command) {
            let i = choose|i: int| 0 <= i < rest.len() && rest[i] == command;
            assert(events[i + 1] == command);
        }
        if events.contains(command) && events[0] != command {
            let i = choose|i: int| 0 <= i < events.len() && events[i] == command;
            assert(rest[i - 1] == command);
        }
        if events[0] == command {
            assert(events.contains(command));
        }
    }
}

/// A connection is in use from when it is brought into use until the client
/// is configured anew, shut down or dropped, or loses it, and no other way.
pub proof fn law_life_of_a_connection(task: TaskModel, event: TaskEvent, capabilities: Capabilities)
    requires
        task.is_valid(),
        task.accepts(event),
    ensures
        task.on_event(event).0.connection == Some(capabilities) <==> {
            ||| task.has_hook && event == TaskEvent::HookEnded(HookEnd::Succeeded) && task.phase
                == TaskPhase::Hooking(capabilities)
            ||| !task.has_hook && event == TaskEvent::ConnectEnded(
                ConnectEnd::Connected(capabilities),
            )
            ||| task.connection == Some(capabilities) && match event {
                TaskEvent::Command(Command::Request(_)) | TaskEvent::Tick => true,
                TaskEvent::Exchanged(Some(raw)) => !(raw.message_type == 0x00 && raw.payload@.len()
                    == 1 && raw.payload@[0] < 4),
                TaskEvent::Pinged(Some(raw)) => raw.message_type == 0x06 && raw.payload@.len() == 0,
                _ => false,
            }
        },
{
}

/// The credentials count as rejected from the server's rejection until a new
/// configuration arrives or a connection comes into use; no failure of an
/// attempt, an exchange or a hook changes that.
pub proof fn law_life_of_a_rejection(task: TaskModel, event: TaskEvent)
    requires
        task.is_valid(),
        task.accepts(event),
    ensures
        task.on_event(event).0.credentials_invalid <==> {
            ||| event == TaskEvent::ConnectEnded(ConnectEnd::InvalidCredentials)
            ||| task.credentials_invalid && match event {
                TaskEvent::Command(Command::Configure(_)) => task.shutdown,
                TaskEvent::ConnectEnded(ConnectEnd::Connected(_)) => task.has_hook,
                TaskEvent::HookEnded(end) => end != HookEnd::Succeeded,
                _ => true,
            }
        },
{
}

/// `InvalidCredentials` is reported from the server's rejection until the next
/// attempt ends, a new configuration arrives, or the client ends.
pub proof fn law_rejection_is_reported(task: TaskModel, event: TaskEvent)
    requires
        task.is_valid(),
        task.accepts(event),
    ensures
        task.on_event(event).0.status is InvalidCredentials <==> {
            ||| event == TaskEvent::ConnectEnded(ConnectEnd::InvalidCredentials)
            ||| task.status is InvalidCredentials && match event {
                TaskEvent::Command(Command::Request(_)) | TaskEvent::Tick => true,
                TaskEvent::ConnectEnded(ConnectEnd::Connected(_)) => task.has_hook,
                _ => false,
            }
        },
{
}

/// What the status is apart from that: `Connected` with the capabilities of
/// the connection in use, `Shutdown` once the client was told to end or is no
/// longer held, `Unconfigured` without a configuration, else `Disconnected`.
pub proof fn law_status_tells_the_state(task: TaskModel)
    requires
        task.is_valid(),
        !(task.status is InvalidCredentials),
    ensures
        task.status == (if task.shutdown || task.phase is Stopped {
            ConnectionStatus::Shutdown
        } else if task.connection is Some {
            ConnectionStatus::Connected { capabilities: task.connection->Some_0 }
        } else if task.config is None {
            ConnectionStatus::Unconfigured
        } else {
            ConnectionStatus::Disconnected
        }),
{
}

/// What the task waits for after an event: the end of what it just began, and
/// else the next event, until its last handle is gone.
pub proof fn law_what_comes_next(task: TaskModel, event: TaskEvent)
    requires
        task.is_valid(),
        task.accepts(event),
    ensures
        ({
            let next = task.on_event(event).0;
            &&& next.phase is Stopped <==> event is HandlesGone
            &&& next.phase is Exchanging <==> task.connection is Some && (event matches
                TaskEvent::Command(Command::Request(_)))
            &&& next.phase is Pinging <==> task.connection is Some && event is Tick
            &&& next.phase is Connecting <==> event is Tick && !task.shutdown
                && task.connection is None && task.config is Some && !(task.credentials_invalid
                && task.policy == InvalidCredentialsPolicy::Latch)
            &&& next.phase is Hooking <==> task.has_hook && (event matches TaskEvent::ConnectEnded(
                ConnectEnd::Connected(_),
            ))
            &&& next.phase matches TaskPhase::Hooking(capabilities) ==> event
                == TaskEvent::ConnectEnded(ConnectEnd::Connected(capabilities))
        }),
{
}

/// An idle task takes every command, tick and end of its handles; a busy one
/// takes exactly the end of what it began.
pub proof fn law_every_event_has_its_time(task: TaskModel, event: TaskEvent)
    ensures
        task.phase is Idle ==> (task.accepts(event) <==> event is Command || event is Tick
            || event is HandlesGone),
        task.phase is Exchanging ==> (task.accepts(event) <==> event is Exchanged),
        task.phase is Pinging ==> (task.accepts(event) <==> event is Pinged),
        task.phase is Connecting ==> (task.accepts(event) <==> event is ConnectEnded),
        task.phase is Hooking ==> (task.accepts(event) <==> event is HookEnded),
        task.phase is Stopped ==> !task.accepts(event),
{
}

/// A disconnect is announced exactly when a connection in use is given up in
/// order, or when a hook fails on a fresh one.
pub proof fn law_cause_of_quit(task: TaskModel, event: TaskEvent)
    requires
        task.is_valid(),
        task.accepts(event),
    ensures
        task.on_event(event).1.contains(Effect::Quit) <==> {
            ||| event == TaskEvent::HookEnded(HookEnd::Failed)
            ||| task.connection is Some && match event {
                TaskEvent::Command(Command::Request(_)) => false,
                TaskEvent::Command(_) | TaskEvent::HandlesGone => true,
                _ => false,
            }
        },
{
    let effects = task.on_event(event).1;
    if event == TaskEvent::HookEnded(HookEnd::Failed) || (task.connection is Some && match event {
        TaskEvent::Command(Command::Request(_)) => false,
        TaskEvent::Command(_) | TaskEvent::HandlesGone => true,
        _ => false,
    }) {
        assert(effects[0] == Effect::Quit);
    }
}

/// A connection is dropped without a word exactly when it is lost: no reply
/// came, the server reported one of the four errors after which it closes the
/// connection, something else than a pong answered a ping, or a hook took too
/// long.
pub proof fn law_cause_of_drop(task: TaskModel, event: TaskEvent)
    requires
        task.is_valid(),
        task.accepts(event),
    ensures
        task.on_event(event).1.contains(Effect::Drop) <==> match event {
            TaskEvent::Exchanged(None) | TaskEvent::Pinged(None) => true,
            TaskEvent::Exchanged(Some(raw)) => raw.message_type == 0x00 && raw.payload@.len() == 1
                && raw.payload@[0] < 4,
            TaskEvent::Pinged(Some(raw)) => raw.message_type != 0x06 || raw.payload@.len() != 0,
            TaskEvent::HookEnded(end) => end == HookEnd::TimedOut,
            _ => false,
        },
{
    let effects = task.on_event(event).1;
    if effects.len() > 0 && effects[0] == Effect::Drop {
        assert(effects.contains(Effect::Drop));
    }
}

/// A status is published exactly if an event leads to it from another one.
pub proof fn law_cause_of_publication(task: TaskModel, event: TaskEvent, status: ConnectionStatus)
    requires
        task.is_valid(),
        task.accepts(event),
    ensures
        task.on_event(event).1.contains(Effect::Publish(status)) <==> task.on_event(event).0.status
            == status && task.status != status,
{
    let (next, effects) = task.on_event(event);
    lemma_event_publishes(task, event);
    reveal_with_fuel(watched, 4);
    if next.status == status && task.status != status {
        if !effects.contains(Effect::Publish(status)) {
            assert(forall|i: int| 0 <= i < effects.len() ==> effects[i] != Effect::Publish(status));
        }
    }
}

/// A response is given exactly to a request that is refused or whose exchange
/// ended: the reply as it came if there is one, `Shutdown` from a client that
/// was shut down, else `Disconnected`.
pub proof fn law_cause_of_response(
    task: TaskModel,
    event: TaskEvent,
    response: Result<RawMessage, RequestError>,
)
    requires
        task.is_valid(),
        task.accepts(event),
    ensures
        task.on_event(event).1.contains(Effect::Respond(response)) <==> match event {
            TaskEvent::Command(Command::Request(_)) => {
                ||| task.shutdown && response == Err::<RawMessage, RequestError>(
                    RequestError::Shutdown,
                )
                ||| !task.shutdown && task.connection is None && response == Err::<
                    RawMessage,
                    RequestError,
                >(RequestError::Disconnected)
            },
            TaskEvent::Exchanged(Some(raw)) => response == Ok::<RawMessage, RequestError>(raw),
            TaskEvent::Exchanged(None) => response == Err::<RawMessage, RequestError>(
                RequestError::Disconnected,
            ),
            _ => false,
        },
{
    let effects = task.on_event(event).1;
    if effects.len() > 0 && effects.last() == Effect::Respond(response) {
        assert(effects[effects.len() - 1] == Effect::Respond(response));
        assert(effects.contains(Effect::Respond(response)));
    }
}

/// A shutdown is acknowledged exactly when it is asked for.
pub proof fn law_cause_of_acknowledgement(task: TaskModel, event: TaskEvent)
    requires
        task.is_valid(),
        task.accepts(event),
    ensures
        task.on_event(event).1.contains(Effect::Acknowledge) <==> event == TaskEvent::Command(
            Command::Shutdown,
        ),
{
    law_shutdown_takes_effect(task, event);
}

/// What is begun, and why: a request's own frame is exchanged over a
/// connection in use; a tick pings it, or else tries to connect, unless the
/// client is shut down, unconfigured or latched; and every fresh connection
/// of a client with a hook runs the hook.
pub proof fn law_cause_of_awaited_effects(task: TaskModel, event: TaskEvent, message: RawMessage)
    requires
        task.is_valid(),
        task.accepts(event),
    ensures
        ({
            let effects = task.on_event(event).1;
            &&& effects.contains(Effect::Exchange(message)) <==> task.connection is Some && event
                == TaskEvent::Command(Command::Request(message))
            &&& effects.contains(Effect::Ping) <==> task.connection is Some && event is Tick
            &&& effects.contains(Effect::Connect) <==> event is Tick && !task.shutdown
                && task.connection is None && task.config is Some && !(task.credentials_invalid
                && task.policy == InvalidCredentialsPolicy::Latch)
            &&& effects.contains(Effect::RunHook) <==> task.has_hook && (event matches
                TaskEvent::ConnectEnded(ConnectEnd::Connected(_)))
        }),
{
    let effects = task.on_event(event).1;
    if effects.len() > 0 {
        assert(effects.contains(effects[0]));
    }
}

/// Each effect of an event comes once and in its place: first a connection
/// goes, then the status is published, then a caller is answered or something
/// is begun.
pub proof fn law_effects_come_in_order(task: TaskModel, event: TaskEvent)
    requires
        task.is_valid(),
        task.accepts(event),
    ensures
        ({
            let effects = task.on_event(event).1;
            forall|i: int, j: int|
                #![trigger effects[i], effects[j]]
                0 <= i < j < effects.len() ==> {
                    &&& effects[i] is Quit || effects[i] is Drop || effects[i] is Publish
                    &&& !(effects[j] is Quit || effects[j] is Drop)
                    &&& !(effects[i] is Publish && effects[j] is Publish)
                }
        }),
{
}

/// A reply closes the connection exactly if it is an error frame of one code
/// and that code is one of the first four.
pub proof fn law_fatal_replies(raw: &RawMessage, fatal: bool)
    requires
        call_ensures(reply_is_fatal, (raw,), fatal),
    ensures
        fatal <==> raw.message_type == 0x00 && raw.payload@.len() == 1 && raw.payload@[0] < 4,
{
}

/// A copy of a configuration is the same configuration.
pub proof fn law_configurations_are_copied(config: &ConnectionConfig, copy: ConnectionConfig)
    requires
        call_ensures(<ConnectionConfig as Clone>::clone, (config,), copy),
    ensures
        copy == *config,
{
}

/// A rejection stops the connecting, unless asked otherwise.
pub proof fn law_rejections_latch(policy: InvalidCredentialsPolicy)
    requires
        call_ensures(<InvalidCredentialsPolicy as Default>::default, (), policy),
    ensures
        policy is Latch,
{
}

} // verus!
