//! The connection orchestrator. Opening a session and supervising it are
//! written as state machines: each function takes what has just happened, and
//! answers with what is to be done next. The caller talks to the broker and
//! to the stores; every decision is taken here.

use vstd::prelude::*;
use vstd::string::*;
use crate::broker_model::{BrokerHandle, BrokerManager, BrokerResponse};
use crate::broker_tool::{
    build_subscribe_all_topics_qoss,
    create_connection_options,
    create_options,
    has_last_will,
};
use crate::error_app::{AppError, AppErrorView, AppMsgError, AppMsgErrorView};
use crate::ident::{format_uuid, uuid_text};
use crate::transport::{ConnectionOptions, DeviceMessageSubscribe, Options, SubscribeTopicQos};

verus! {

/// How far the opening of a session has come.
#[derive(Debug, Clone, Copy, PartialEq, Eq, Structural)]
pub enum ConnectStep {
    /// Nothing has been done yet.
    Start,
    /// The transport session is being opened.
    Opening,
    /// The devices that subscribe from the start are being fetched.
    Fetching,
    /// The initial subscription batch is being sent.
    Subscribing,
    /// The session is registered and is to be supervised.
    Done,
    /// The attempt has failed; no session was registered.
    Failed,
}

/// The opening of one broker's session in progress.
#[derive(Debug)]
pub struct Connecting {
    pub step: ConnectStep,
    pub broker_uuid: u128,
    pub options: Options,
    pub connection_options: ConnectionOptions,
    pub client: u64,
    pub subscriptions: SubscribeTopicQos,
}

/// What has just happened while a session was being opened.
#[derive(Debug)]
pub enum ConnectEvent {
    /// The caller asks for the connection.
    Begin,
    /// The transport session is open; `client` is its handle.
    Opened { client: u64 },
    /// The transport client could not be set up with the options.
    SetupFailed { detail: String },
    /// The transport session could not be opened.
    OpenFailed { detail: String },
    /// These devices subscribe from the start.
    Subscribers { devices: Vec<DeviceMessageSubscribe> },
    /// The devices could not be fetched.
    SubscribersFailed { error: AppError },
    /// The broker took the initial subscription batch.
    Subscribed,
    /// The broker refused the initial subscription batch.
    SubscribeFailed { detail: String },
}

/// What the caller is to do next while a session is being opened.
#[derive(Debug)]
pub enum ConnectAction {
    /// Open the transport session with the options of the state.
    Open,
    /// Fetch the devices that are flagged as active subscribers.
    FetchSubscribers,
    /// Subscribe to the whole batch of the state in one request.
    SubscribeMany,
    /// Start the supervising loop and report success.
    Supervise,
    /// Give the attempt up and report this error.
    Fail(AppError),
}

/// The mathematical content of a [`ConnectAction`].
pub enum ConnectActionView {
    Open,
    FetchSubscribers,
    SubscribeMany,
    Supervise,
    Fail(AppErrorView),
}

impl View for ConnectAction {
    type V = ConnectActionView;

    open spec fn view(&self) -> ConnectActionView {
        match self {
            ConnectAction::Open => ConnectActionView::Open,
            ConnectAction::FetchSubscribers => ConnectActionView::FetchSubscribers,
            ConnectAction::SubscribeMany => ConnectActionView::SubscribeMany,
            ConnectAction::Supervise => ConnectActionView::Supervise,
            ConnectAction::Fail(e) => ConnectActionView::Fail(e@),
        }
    }
}

/// The error of an event that does not belong to the step it arrives in.
pub open spec fn out_of_turn() -> AppErrorView {
    AppErrorView::InternalServerError("Unexpected connection event"@)
}

/// The error of a broker that already has a live session.
pub open spec fn already_connected(broker_uuid: u128) -> AppErrorView {
    AppErrorView::ConstraintViolation(
        AppMsgErrorView {
            api_msg_error: "Broker already connected"@,
            log_msg_error: "Broker already connected, uuid: "@ + uuid_text(broker_uuid),
        },
    )
}

/// The error of a transport failure while connecting.
pub open spec fn transport_failure(api_msg_error: Seq<char>, detail: Seq<char>) -> AppErrorView {
    AppErrorView::MqttError(AppMsgErrorView { api_msg_error, log_msg_error: detail })
}

/// The step that follows `step` on `event`. `free` says whether the broker
/// has no session in the registry; it matters only where the session is
/// about to be registered.
pub open spec fn connect_next(step: ConnectStep, event: ConnectEvent, free: bool) -> ConnectStep {
    match (step, event) {
        (ConnectStep::Start, ConnectEvent::Begin) => ConnectStep::Opening,
        (ConnectStep::Opening, ConnectEvent::Opened { .. }) => ConnectStep::Fetching,
        (ConnectStep::Fetching, ConnectEvent::Subscribers { devices }) => if devices@.len() > 0 {
            ConnectStep::Subscribing
        } else if free {
            ConnectStep::Done
        } else {
            ConnectStep::Failed
        },
        (ConnectStep::Subscribing, ConnectEvent::Subscribed) => if free {
            ConnectStep::Done
        } else {
            ConnectStep::Failed
        },
        (ConnectStep::Done, _) => ConnectStep::Done,
        _ => ConnectStep::Failed,
    }
}

/// What the caller is told to do when `event` arrives in `step`.
pub open spec fn connect_action(
    step: ConnectStep,
    event: ConnectEvent,
    free: bool,
    broker_uuid: u128,
) -> ConnectActionView {
    match (step, event) {
        (ConnectStep::Start, ConnectEvent::Begin) => ConnectActionView::Open,
        (ConnectStep::Opening, ConnectEvent::Opened { .. }) => ConnectActionView::FetchSubscribers,
        (ConnectStep::Opening, ConnectEvent::SetupFailed { detail }) => ConnectActionView::Fail(
            transport_failure("MqttError"@, detail@),
        ),
        (ConnectStep::Opening, ConnectEvent::OpenFailed { detail }) => ConnectActionView::Fail(
            transport_failure("Mqtt client connection failure"@, detail@),
        ),
        (ConnectStep::Fetching, ConnectEvent::Subscribers { devices }) => if devices@.len() > 0 {
            ConnectActionView::SubscribeMany
        } else if free {
            ConnectActionView::Supervise
        } else {
            ConnectActionView::Fail(already_connected(broker_uuid))
        },
        (ConnectStep::Fetching, ConnectEvent::SubscribersFailed { error }) => ConnectActionView::Fail(
            error@,
        ),
        (ConnectStep::Subscribing, ConnectEvent::Subscribed) => if free {
            ConnectActionView::Supervise
        } else {
            ConnectActionView::Fail(already_connected(broker_uuid))
        },
        (ConnectStep::Subscribing, ConnectEvent::SubscribeFailed { detail }) => ConnectActionView::Fail(
            transport_failure("MqttError"@, detail@),
        ),
        _ => ConnectActionView::Fail(out_of_turn()),
    }
}

/// Whether `after` is `before` with a fresh session of `client` registered
/// for `broker_uuid`: not cancelled, no command waiting, every other session
/// as it was.
pub open spec fn is_registration(
    before: Map<u128, BrokerHandle>,
    after: Map<u128, BrokerHandle>,
    broker_uuid: u128,
    client: u64,
) -> bool {
    &&& !before.contains_key(broker_uuid)
    &&& after.dom() == before.dom().insert(broker_uuid)
    &&& after[broker_uuid].client == client
    &&& !after[broker_uuid].cancelled
    &&& after[broker_uuid].commands@.len() == 0
    &&& forall|other: u128| #[trigger] before.contains_key(other) ==> after[other] == before[other]
}

impl Connecting {
    /// Whether this is the start of an attempt to open a session to
    /// `broker`: nothing done yet, and the transport options those that the
    /// broker's record gives.
    pub open spec fn is_start_for(&self, broker: &BrokerResponse) -> bool {
        &&& self.step == ConnectStep::Start
        &&& self.broker_uuid == broker.uuid
        &&& self.options.server_host@ == broker.host@
        &&& self.options.server_port == broker.port as u32
        &&& self.options.client_id@ == broker.client_id@
        &&& self.options.version == broker.version
        &&& self.connection_options.keep_alive == broker.keep_alive as u64
        &&& self.connection_options.clean_session == broker.clean_session
        &&& self.connection_options.will is Some <==> has_last_will(broker)
        &&& self.connection_options.will matches Some(will) ==> {
            &&& will.topic@ == broker.last_will_topic->0@
            &&& will.payload@ == broker.last_will_message->0@
            &&& will.qos == broker.last_will_qos->0
            &&& will.retained == broker.last_will_retain->0
        }
        &&& self.subscriptions.topics@.len() == 0
        &&& self.subscriptions.qoss@.len() == 0
    }

    /// The start of an attempt to open a session to `broker`, with the
    /// transport options that its record gives.
    pub fn new(broker: &BrokerResponse) -> (c: Connecting)
        ensures
            c.is_start_for(broker),
    {
        Connecting {
            step: ConnectStep::Start,
            broker_uuid: broker.uuid,
            options: create_options(broker),
            connection_options: create_connection_options(broker),
            client: 0,
            subscriptions: SubscribeTopicQos { topics: Vec::new(), qoss: Vec::new() },
        }
    }
}

fn fail(state: Connecting, error: AppError) -> (r: (Connecting, ConnectAction))
    ensures
        r.0.step == (if state.step == ConnectStep::Done {
            ConnectStep::Done
        } else {
            ConnectStep::Failed
        }),
        r.0.broker_uuid == state.broker_uuid,
        r.0.options == state.options,
        r.0.connection_options == state.connection_options,
        r.0.client == state.client,
        r.0.subscriptions == state.subscriptions,
        r.1@ == ConnectActionView::Fail(error@),
{
    let step = match state.step {
        ConnectStep::Done => ConnectStep::Done,
        _ => ConnectStep::Failed,
    };
    (
        Connecting {
            step,
            broker_uuid: state.broker_uuid,
            options: state.options,
            connection_options: state.connection_options,
            client: state.client,
            subscriptions: state.subscriptions,
        },
        ConnectAction::Fail(error),
    )
}

fn register(state: Connecting, manager: &mut BrokerManager) -> (r: (Connecting, ConnectAction))
    requires
        old(manager).wf(),
        state.step == ConnectStep::Fetching || state.step == ConnectStep::Subscribing,
    ensures
        final(manager).wf(),
        r.0.broker_uuid == state.broker_uuid,
        r.0.options == state.options,
        r.0.connection_options == state.connection_options,
        r.0.client == state.client,
        r.0.subscriptions == state.subscriptions,
        if old(manager)@.contains_key(state.broker_uuid) {
            &&& r.0.step == ConnectStep::Failed
            &&& r.1@ == ConnectActionView::Fail(already_connected(state.broker_uuid))
            &&& final(manager)@ == old(manager)@
        } else {
            &&& r.0.step == ConnectStep::Done
            &&& r.1@ == ConnectActionView::Supervise
            &&& is_registration(old(manager)@, final(manager)@, state.broker_uuid, state.client)
        },
{
    if manager.register(state.broker_uuid, BrokerHandle::new(state.client)) {
        assert(final(manager)@.dom() =~= old(manager)@.dom().insert(state.broker_uuid));
        (
            Connecting {
                step: ConnectStep::Done,
                broker_uuid: state.broker_uuid,
                options: state.options,
                connection_options: state.connection_options,
                client: state.client,
                subscriptions: state.subscriptions,
            },
            ConnectAction::Supervise,
        )
    } else {
        let error = AppError::ConstraintViolation(
            AppMsgError {
                api_msg_error: "Broker already connected".to_owned(),
                log_msg_error: "Broker already connected, uuid: ".to_owned().concat(
                    format_uuid(state.broker_uuid).as_str(),
                ),
            },
        );
        fail(state, error)
    }
}

/// Takes the opening of a session one step further.
///
/// The steps follow each other in one order: open the transport, fetch the
/// devices that subscribe from the start, subscribe to their topics in one
/// batch if there are any, register the session, supervise it. A failure of
/// any step ends the attempt with that error. The session is registered in
/// the step that answers `Supervise` and in no other, and only if the broker
/// has no session yet; every other step leaves the registry as it is. An
/// event that does not belong to the step it arrives in is answered with a
/// failure: it ends an attempt that is under way and leaves a finished one
/// as it is.
pub fn connect(state: Connecting, event: ConnectEvent, manager: &mut BrokerManager) -> (r: (
    Connecting,
    ConnectAction,
))
    requires
        old(manager).wf(),
    ensures
        final(manager).wf(),
        r.0.step == connect_next(
            state.step,
            event,
            !old(manager)@.contains_key(state.broker_uuid),
        ),
        r.1@ == connect_action(
            state.step,
            event,
            !old(manager)@.contains_key(state.broker_uuid),
            state.broker_uuid,
        ),
        r.0.broker_uuid == state.broker_uuid,
        r.0.options == state.options,
        r.0.connection_options == state.connection_options,
        r.0.client == (match (state.step, event) {
            (ConnectStep::Opening, ConnectEvent::Opened { client }) => client,
            _ => state.client,
        }),
        match (state.step, event) {
            (ConnectStep::Fetching, ConnectEvent::Subscribers { devices }) => {
                &&& r.0.subscriptions.wf()
                &&& r.0.subscriptions.is_batch_of(devices@)
            },
            _ => r.0.subscriptions == state.subscriptions,
        },
        if r.1@ == ConnectActionView::Supervise {
            is_registration(old(manager)@, final(manager)@, state.broker_uuid, r.0.client)
        } else {
            final(manager)@ == old(manager)@
        },
{
    match (state.step, event) {
        (ConnectStep::Start, ConnectEvent::Begin) => (
            Connecting {
                step: ConnectStep::Opening,
                broker_uuid: state.broker_uuid,
                options: state.options,
                connection_options: state.connection_options,
                client: state.client,
                subscriptions: state.subscriptions,
            },
            ConnectAction::Open,
        ),
        (ConnectStep::Opening, ConnectEvent::Opened { client }) => (
            Connecting {
                step: ConnectStep::Fetching,
                broker_uuid: state.broker_uuid,
                options: state.options,
                connection_options: state.connection_options,
                client,
                subscriptions: state.subscriptions,
            },
            ConnectAction::FetchSubscribers,
        ),
        (ConnectStep::Opening, ConnectEvent::SetupFailed { detail }) => {
            fail(state, AppError::mqtt("MqttError", detail))
        },
        (ConnectStep::Opening, ConnectEvent::OpenFailed { detail }) => {
            fail(state, AppError::mqtt("Mqtt client connection failure", detail))
        },
        (ConnectStep::Fetching, ConnectEvent::Subscribers { devices }) => {
            let some = devices.len() > 0;
            let subscriptions = build_subscribe_all_topics_qoss(devices);
            if some {
                (
                    Connecting {
                        step: ConnectStep::Subscribing,
                        broker_uuid: state.broker_uuid,
                        options: state.options,
                        connection_options: state.connection_options,
                        client: state.client,
                        subscriptions,
                    },
                    ConnectAction::SubscribeMany,
                )
            } else {
                register(
                    Connecting {
                        step: state.step,
                        broker_uuid: state.broker_uuid,
                        options: state.options,
                        connection_options: state.connection_options,
                        client: state.client,
                        subscriptions,
                    },
                    manager,
                )
            }
        },
        (ConnectStep::Fetching, ConnectEvent::SubscribersFailed { error }) => fail(state, error),
        (ConnectStep::Subscribing, ConnectEvent::Subscribed) => register(state, manager),
        (ConnectStep::Subscribing, ConnectEvent::SubscribeFailed { detail }) => {
            fail(state, AppError::mqtt("MqttError", detail))
        },
        (_, _) => fail(state, AppError::InternalServerError("Unexpected connection event".to_owned())),
    }
}

/// The session is registered exactly in the step that answers `Supervise`,
/// and only for a broker without a session. That step comes after the
/// devices were fetched: at once where none subscribes, and otherwise only
/// after the broker took the whole batch. An attempt that has failed or is
/// done stays so.
pub proof fn lemma_connect_steps(step: ConnectStep, event: ConnectEvent, free: bool, broker_uuid: u128)
    ensures
        connect_next(step, event, free) == ConnectStep::Done && step != ConnectStep::Done
            <==> connect_action(step, event, free, broker_uuid) == ConnectActionView::Supervise,
        connect_action(step, event, free, broker_uuid) == ConnectActionView::Supervise ==> free,
        step == ConnectStep::Failed ==> connect_next(step, event, free) == ConnectStep::Failed,
        step == ConnectStep::Done ==> connect_next(step, event, free) == ConnectStep::Done,
        connect_action(step, event, free, broker_uuid) == ConnectActionView::Supervise ==> (step
            == ConnectStep::Fetching && event is Subscribers && event->devices@.len() == 0) || (step
            == ConnectStep::Subscribing && event is Subscribed),
        connect_action(step, event, free, broker_uuid) == ConnectActionView::SubscribeMany ==> step
            == ConnectStep::Fetching && event is Subscribers && event->devices@.len() > 0,
{
}

} // verus!
