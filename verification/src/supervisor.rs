//! The supervising loop of one live session, as a state machine. The caller
//! waits for whatever happens first (a command, cancellation, something from
//! the transport), hands it over as an event, and carries out the actions it
//! gets back, in order.

use vstd::prelude::*;
use crate::broker_model::{BrokerCommand, BrokerHandle, BrokerManager};
use crate::transport::SubscribeTopicQos;

verus! {

/// The state of a supervising loop.
#[derive(Debug, Clone, Copy, PartialEq, Eq, Structural)]
pub enum SupervisorState {
    /// The link is up; events are served as they come.
    Active,
    /// The link is lost; the session is being re-established.
    Reconnecting,
    /// The loop has ended and the session is gone from the registry.
    Terminated,
}

/// One supervising loop: whose session it is, where it stands, how many
/// attempts to reconnect have failed so far, and the subscription batch the
/// session started with.
#[derive(Debug)]
pub struct Supervisor {
    pub broker_uuid: u128,
    pub state: SupervisorState,
    pub reconnect_attempt: u64,
    pub subscriptions: SubscribeTopicQos,
}

/// What the supervising loop has just observed.
#[derive(Debug)]
pub enum SessionEvent {
    /// A command was taken from the session's queue.
    Command(BrokerCommand),
    /// Cancellation was signalled.
    Cancelled,
    /// The transport delivered a message.
    Message,
    /// The transport reported the loss of the link.
    LinkLost,
    /// The transport's stream ended: nothing more can come.
    StreamClosed,
    /// An attempt to reconnect failed.
    ReconnectFailed,
    /// An attempt to reconnect succeeded.
    Reconnected,
}

/// What the caller is to do for the supervising loop.
#[derive(Debug)]
pub enum SessionAction {
    /// Subscribe on the transport; an error is logged and nothing more.
    Subscribe { topic: String, qos: i32 },
    /// Unsubscribe on the transport; an error is logged and nothing more.
    Unsubscribe { topic: String },
    /// Hand the delivered message to the ingestion pipeline, detached.
    Ingest,
    /// Run the state synchronizer for this broker.
    SetConnected { connected: bool, search_broker: bool },
    /// Disconnect the transport; an error is logged and nothing more.
    Disconnect,
    /// Try to re-establish the transport session and report the outcome.
    Reconnect,
    /// Wait this many seconds.
    Wait { seconds: u64 },
    /// Subscribe to the whole batch of the supervisor in one request; an
    /// error is logged and nothing more.
    SubscribeMany,
    /// Leave the loop.
    Exit,
}

/// The delay between two attempts to reconnect, in seconds.
pub const RECONNECT_DELAY_SECONDS: u64 = 1;

/// The state that follows `state` on `event`. Only the loss of the link and
/// its recovery move the loop between `Active` and `Reconnecting`; only
/// cancellation and the end of the stream terminate it, and only while it is
/// `Active`. An event that the state does not wait for changes nothing.
pub open spec fn supervise_next(state: SupervisorState, event: SessionEvent) -> SupervisorState {
    match (state, event) {
        (SupervisorState::Active, SessionEvent::LinkLost) => SupervisorState::Reconnecting,
        (SupervisorState::Active, SessionEvent::Cancelled) => SupervisorState::Terminated,
        (SupervisorState::Active, SessionEvent::StreamClosed) => SupervisorState::Terminated,
        (SupervisorState::Reconnecting, SessionEvent::Reconnected) => SupervisorState::Active,
        _ => state,
    }
}

/// The actions that `event` calls for in `state`, in the order in which they
/// are to be carried out. `resubscribe` says whether the session started
/// with any subscription.
pub open spec fn supervise_actions(
    state: SupervisorState,
    event: SessionEvent,
    resubscribe: bool,
) -> Seq<SessionAction> {
    match (state, event) {
        (SupervisorState::Active, SessionEvent::Command(BrokerCommand::Subscribe { topic, qos })) => {
            seq![SessionAction::Subscribe { topic, qos }]
        },
        (SupervisorState::Active, SessionEvent::Command(BrokerCommand::Unsubscribe { topic })) => {
            seq![SessionAction::Unsubscribe { topic }]
        },
        (SupervisorState::Active, SessionEvent::Message) => seq![SessionAction::Ingest],
        (SupervisorState::Active, SessionEvent::LinkLost) => seq![
            SessionAction::SetConnected { connected: false, search_broker: true },
            SessionAction::Reconnect,
        ],
        (SupervisorState::Active, SessionEvent::StreamClosed) => seq![SessionAction::Exit],
        (SupervisorState::Active, SessionEvent::Cancelled) => seq![
            SessionAction::Disconnect,
            SessionAction::SetConnected { connected: false, search_broker: false },
            SessionAction::Exit,
        ],
        (SupervisorState::Reconnecting, SessionEvent::ReconnectFailed) => seq![
            SessionAction::Wait { seconds: RECONNECT_DELAY_SECONDS },
            SessionAction::Reconnect,
        ],
        (SupervisorState::Reconnecting, SessionEvent::Reconnected) => if resubscribe {
            seq![
                SessionAction::SetConnected { connected: true, search_broker: true },
                SessionAction::SubscribeMany,
            ]
        } else {
            seq![SessionAction::SetConnected { connected: true, search_broker: true }]
        },
        _ => Seq::<SessionAction>::empty(),
    }
}

/// The count of failed attempts after `event`: one more for every failed
/// attempt while reconnecting, held at the largest number it can take.
pub open spec fn attempts_after(state: SupervisorState, event: SessionEvent, attempts: u64) -> u64 {
    if state == SupervisorState::Reconnecting && event is ReconnectFailed && attempts < u64::MAX {
        (attempts + 1) as u64
    } else {
        attempts
    }
}

/// Whether `event` ends the loop when it arrives in `state`.
pub open spec fn terminates(state: SupervisorState, event: SessionEvent) -> bool {
    state == SupervisorState::Active && (event is Cancelled || event is StreamClosed)
}

impl Supervisor {
    /// The supervising loop of a session that has just been registered.
    pub fn new(broker_uuid: u128, subscriptions: SubscribeTopicQos) -> (s: Supervisor)
        ensures
            s.broker_uuid == broker_uuid,
            s.state == SupervisorState::Active,
            s.reconnect_attempt == 0,
            s.subscriptions == subscriptions,
    {
        Supervisor { broker_uuid, state: SupervisorState::Active, reconnect_attempt: 0, subscriptions }
    }

    /// Whether the loop has ended.
    pub fn is_terminated(&self) -> (ended: bool)
        ensures
            ended == (self.state == SupervisorState::Terminated),
    {
        match self.state {
            SupervisorState::Terminated => true,
            _ => false,
        }
    }
}

/// Serves one event of a supervising loop: moves the loop to its next state
/// and says what the caller is to do.
///
/// When the loop terminates, the session is taken out of the registry in
/// this very step, together with every command that still waited in its
/// queue. In every other step the registry stays as it is.
pub fn supervise(supervisor: &mut Supervisor, event: SessionEvent, manager: &mut BrokerManager) -> (actions:
    Vec<SessionAction>)
    requires
        old(manager).wf(),
    ensures
        final(manager).wf(),
        final(supervisor).state == supervise_next(old(supervisor).state, event),
        actions@ == supervise_actions(
            old(supervisor).state,
            event,
            old(supervisor).subscriptions.topics@.len() > 0,
        ),
        final(supervisor).broker_uuid == old(supervisor).broker_uuid,
        final(supervisor).subscriptions == old(supervisor).subscriptions,
        final(supervisor).reconnect_attempt == attempts_after(
            old(supervisor).state,
            event,
            old(supervisor).reconnect_attempt,
        ),
        final(manager)@ == (if terminates(old(supervisor).state, event) {
            old(manager)@.remove(old(supervisor).broker_uuid)
        } else {
            old(manager)@
        }),
{
    let mut actions: Vec<SessionAction> = Vec::new();
    match supervisor.state {
        SupervisorState::Active => match event {
            SessionEvent::Command(BrokerCommand::Subscribe { topic, qos }) => {
                actions.push(SessionAction::Subscribe { topic, qos });
                assert(actions@ =~= seq![SessionAction::Subscribe { topic, qos }]);
            },
            SessionEvent::Command(BrokerCommand::Unsubscribe { topic }) => {
                actions.push(SessionAction::Unsubscribe { topic });
                assert(actions@ =~= seq![SessionAction::Unsubscribe { topic }]);
            },
            SessionEvent::Message => {
                actions.push(SessionAction::Ingest);
                assert(actions@ =~= seq![SessionAction::Ingest]);
            },
            SessionEvent::LinkLost => {
                actions.push(SessionAction::SetConnected { connected: false, search_broker: true });
                actions.push(SessionAction::Reconnect);
                supervisor.state = SupervisorState::Reconnecting;
                assert(actions@ =~= seq![
                    SessionAction::SetConnected { connected: false, search_broker: true },
                    SessionAction::Reconnect,
                ]);
            },
            SessionEvent::StreamClosed => {
                manager.remove(&supervisor.broker_uuid);
                actions.push(SessionAction::Exit);
                supervisor.state = SupervisorState::Terminated;
                assert(actions@ =~= seq![SessionAction::Exit]);
            },
            SessionEvent::Cancelled => {
                manager.remove(&supervisor.broker_uuid);
                actions.push(SessionAction::Disconnect);
                actions.push(SessionAction::SetConnected { connected: false, search_broker: false });
                actions.push(SessionAction::Exit);
                supervisor.state = SupervisorState::Terminated;
                assert(actions@ =~= seq![
                    SessionAction::Disconnect,
                    SessionAction::SetConnected { connected: false, search_broker: false },
                    SessionAction::Exit,
                ]);
            },
            _ => {
                assert(actions@ =~= Seq::<SessionAction>::empty());
            },
        },
        SupervisorState::Reconnecting => match event {
            SessionEvent::ReconnectFailed => {
                if supervisor.reconnect_attempt < u64::MAX {
                    supervisor.reconnect_attempt = supervisor.reconnect_attempt + 1;
                }
                actions.push(SessionAction::Wait { seconds: RECONNECT_DELAY_SECONDS });
                actions.push(SessionAction::Reconnect);
                assert(actions@ =~= seq![
                    SessionAction::Wait { seconds: RECONNECT_DELAY_SECONDS },
                    SessionAction::Reconnect,
                ]);
            },
            SessionEvent::Reconnected => {
                actions.push(SessionAction::SetConnected { connected: true, search_broker: true });
                if !supervisor.subscriptions.is_empty() {
                    actions.push(SessionAction::SubscribeMany);
                    assert(actions@ =~= seq![
                        SessionAction::SetConnected { connected: true, search_broker: true },
                        SessionAction::SubscribeMany,
                    ]);
                } else {
                    assert(actions@ =~= seq![
                        SessionAction::SetConnected { connected: true, search_broker: true },
                    ]);
                }
                supervisor.state = SupervisorState::Active;
            },
            _ => {
                assert(actions@ =~= Seq::<SessionAction>::empty());
            },
        },
        SupervisorState::Terminated => {
            assert(actions@ =~= Seq::<SessionAction>::empty());
        },
    }
    actions
}

/// What the session of `broker_uuid` has for its supervising loop, apart
/// from the transport: cancellation if it was signalled, else the oldest
/// waiting command, else nothing. Commands come out in the order in which
/// they were sent.
pub fn next_session_event(manager: &mut BrokerManager, broker_uuid: &u128) -> (event: Option<
    SessionEvent,
>)
    requires
        old(manager).wf(),
    ensures
        final(manager).wf(),
        match event {
            Some(SessionEvent::Cancelled) => {
                &&& old(manager)@.contains_key(*broker_uuid)
                &&& old(manager)@[*broker_uuid].cancelled
                &&& final(manager)@ == old(manager)@
            },
            Some(SessionEvent::Command(command)) => {
                &&& old(manager)@.contains_key(*broker_uuid)
                &&& !old(manager)@[*broker_uuid].cancelled
                &&& old(manager)@[*broker_uuid].commands@.len() > 0
                &&& command == old(manager)@[*broker_uuid].commands@[0]
                &&& final(manager)@.dom() == old(manager)@.dom()
                &&& final(manager)@[*broker_uuid].commands@ == old(
                    manager,
                )@[*broker_uuid].commands@.drop_first()
                &&& final(manager)@[*broker_uuid].client == old(manager)@[*broker_uuid].client
                &&& !final(manager)@[*broker_uuid].cancelled
                &&& forall|other: u128|
                    other != *broker_uuid && #[trigger] old(manager)@.contains_key(other)
                        ==> final(manager)@[other] == old(manager)@[other]
            },
            Some(_) => false,
            None => {
                &&& final(manager)@ == old(manager)@
                &&& old(manager)@.contains_key(*broker_uuid) ==> !old(manager)@[*broker_uuid].cancelled
                    && old(manager)@[*broker_uuid].commands@.len() == 0
            },
        },
{
    if manager.is_cancelled(broker_uuid) {
        Some(SessionEvent::Cancelled)
    } else {
        match manager.next_command(broker_uuid) {
            Some(command) => Some(SessionEvent::Command(command)),
            None => None,
        }
    }
}

/// A terminated loop stays terminated and asks for nothing.
pub proof fn lemma_terminated_is_final(event: SessionEvent, resubscribe: bool)
    ensures
        supervise_next(SupervisorState::Terminated, event) == SupervisorState::Terminated,
        supervise_actions(SupervisorState::Terminated, event, resubscribe).len() == 0,
        !terminates(SupervisorState::Terminated, event),
{
}

/// Once a loop has terminated, its broker has no session in the registry,
/// so that no command can be queued for it any more; the sessions of other
/// brokers are as they were.
pub proof fn lemma_terminated_has_no_session(
    sessions: Map<u128, BrokerHandle>,
    broker_uuid: u128,
    state: SupervisorState,
    event: SessionEvent,
)
    requires
        terminates(state, event),
    ensures
        supervise_next(state, event) == SupervisorState::Terminated,
        !sessions.remove(broker_uuid).contains_key(broker_uuid),
        forall|other: u128|
            other != broker_uuid && sessions.contains_key(other) ==> #[trigger] sessions.remove(
                broker_uuid,
            ).contains_key(other) && sessions.remove(broker_uuid)[other] == sessions[other],
{
}

/// The state of a loop changes on four occasions and no others: the link is
/// lost, the link is back, cancellation is signalled, the stream ends.
/// Commands, messages and failed attempts leave the state as it is.
pub proof fn lemma_state_changes(state: SupervisorState, event: SessionEvent)
    ensures
        supervise_next(state, event) != state <==> (state == SupervisorState::Active && (event
            is LinkLost || event is Cancelled || event is StreamClosed)) || (state
            == SupervisorState::Reconnecting && event is Reconnected),
        supervise_next(state, event) == SupervisorState::Terminated && state
            != SupervisorState::Terminated <==> terminates(state, event),
        event is Command || event is Message || event is ReconnectFailed ==> supervise_next(
            state,
            event,
        ) == state,
{
}

/// While reconnecting, every failed attempt is followed by the fixed delay
/// and one more attempt, without limit; the loop leaves that state only when
/// an attempt succeeds, and then stores the broker as connected before
/// anything else.
pub proof fn lemma_reconnect_policy(event: SessionEvent, resubscribe: bool)
    ensures
        event is ReconnectFailed ==> supervise_actions(
            SupervisorState::Reconnecting,
            event,
            resubscribe,
        ) == seq![
            SessionAction::Wait { seconds: RECONNECT_DELAY_SECONDS },
            SessionAction::Reconnect,
        ] && supervise_next(SupervisorState::Reconnecting, event) == SupervisorState::Reconnecting,
        !(event is Reconnected) ==> supervise_next(SupervisorState::Reconnecting, event)
            == SupervisorState::Reconnecting,
        event is Reconnected ==> supervise_actions(SupervisorState::Reconnecting, event, resubscribe)[0]
            == (SessionAction::SetConnected { connected: true, search_broker: true }),
{
}

} // verus!
