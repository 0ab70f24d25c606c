//! The registration of a device, as a state machine: what is looked up,
//! checked and stored, in which order, and when the live session of the
//! connected broker is told to subscribe.

use vstd::prelude::*;
use vstd::string::*;
use crate::broker_model::{
    BrokerCommand,
    BrokerHandle,
    BrokerManager,
    BrokerResponse,
    COMMAND_QUEUE_CAPACITY,
};
use crate::broker_tool::{is_queued, no_session, Delivery};
use crate::device_handler::{
    broker_not_connected,
    broker_url,
    connected_broker,
    device_create_response,
    device_registered,
    device_subscribe,
    device_topic,
    device_topic_checked,
    device_unregistered,
    is_response_of,
};
use crate::device_message_model::{DeviceMessage, DeviceScale};
use crate::device_model::{Device, DeviceCreate, DeviceCreateResponse};
use crate::error_app::{AppError, AppErrorView};
use crate::text::decimal_text;
use crate::topic::compose_topic;

verus! {

/// How far a registration has come.
#[derive(Debug, Clone, Copy, PartialEq, Eq, Structural)]
pub enum RegisterStep {
    /// Nothing has been done yet.
    Start,
    /// A stored device with the same hardware address is being looked for.
    FindingDevice,
    /// The connected broker is being looked for.
    FindingBroker,
    /// The transport library is looking at the topic.
    CheckingTopic,
    /// The device, its message and its scales are being stored.
    Storing,
    /// The device's document is being created.
    CreatingDocument,
    /// The device is registered.
    Done,
    /// The registration has failed.
    Failed,
}

/// One registration in progress.
#[derive(Debug)]
pub struct Registering {
    pub step: RegisterStep,
    pub user_uuid: u128,
    pub device: DeviceCreate,
    pub broker: Option<BrokerResponse>,
    pub topic: String,
    pub response: Option<DeviceCreateResponse>,
}

/// What has just happened during a registration.
#[derive(Debug)]
pub enum RegisterEvent {
    /// The caller asks for the registration.
    Begin,
    /// What the lookup by hardware address found.
    DeviceLookup { existing: Result<Option<Device>, AppError> },
    /// What the lookup of the connected broker found.
    BrokerLookup { found: Result<Option<BrokerResponse>, AppError> },
    /// What the transport library objects to in the topic, if anything.
    TopicChecked { error: Option<String> },
    /// The rows that were stored, or why storing failed.
    Stored { rows: Result<(Device, DeviceMessage, Vec<DeviceScale>), AppError> },
    /// Whether the device's document was created.
    DocumentCreated { result: Result<(), AppError> },
}

/// What the caller is to do next during a registration.
#[derive(Debug)]
pub enum RegisterAction {
    /// Look for a stored device with the hardware address of the state's
    /// device.
    FindDevice,
    /// Look for the broker that is stored as connected.
    FindConnectedBroker,
    /// Let the transport library look at the state's topic.
    CheckTopic,
    /// Store the state's device with its message under the state's topic,
    /// and its scales, all or nothing.
    Store,
    /// Create the document of the device of the state's answer.
    CreateDocument,
    /// Answer with the state's answer.
    Reply,
    /// The queue of the broker's live session is full: wait until the
    /// supervising loop has made room, then hand this event in again.
    /// Nothing has changed.
    WaitForRoom { again: RegisterEvent },
    /// Give the registration up and report this error.
    Fail(AppError),
}

/// The mathematical content of a [`RegisterAction`].
pub enum RegisterActionView {
    FindDevice,
    FindConnectedBroker,
    CheckTopic,
    Store,
    CreateDocument,
    Reply,
    WaitForRoom,
    Fail(AppErrorView),
}

impl View for RegisterAction {
    type V = RegisterActionView;

    open spec fn view(&self) -> RegisterActionView {
        match self {
            RegisterAction::FindDevice => RegisterActionView::FindDevice,
            RegisterAction::FindConnectedBroker => RegisterActionView::FindConnectedBroker,
            RegisterAction::CheckTopic => RegisterActionView::CheckTopic,
            RegisterAction::Store => RegisterActionView::Store,
            RegisterAction::CreateDocument => RegisterActionView::CreateDocument,
            RegisterAction::Reply => RegisterActionView::Reply,
            RegisterAction::WaitForRoom { .. } => RegisterActionView::WaitForRoom,
            RegisterAction::Fail(e) => RegisterActionView::Fail(e@),
        }
    }
}

/// Whether `event` reports, in its turn, that the rows have been stored.
pub open spec fn stores_rows(state: Registering, event: RegisterEvent) -> bool {
    state.step == RegisterStep::Storing && event is Stored && event->rows is Ok
}

/// Whether storing is followed by a subscription: it is for a sensor.
pub open spec fn subscribes(state: Registering) -> bool {
    state.device.device_type_int == 0
}

/// Whether the broker of the state has a live session.
pub open spec fn has_session(state: Registering, sessions: Map<u128, BrokerHandle>) -> bool {
    state.broker matches Some(b) && sessions.contains_key(b.uuid)
}

/// Whether the subscription that follows storing can be queued now: the
/// broker of the state has a live session with room in its queue.
pub open spec fn can_subscribe(state: Registering, sessions: Map<u128, BrokerHandle>) -> bool {
    state.broker matches Some(b) && sessions.contains_key(b.uuid) && sessions[b.uuid].commands@.len()
        < COMMAND_QUEUE_CAPACITY
}

/// What the caller is told when `event` arrives in the state `state`, with
/// the live sessions `sessions`.
pub open spec fn register_action(
    state: Registering,
    event: RegisterEvent,
    sessions: Map<u128, BrokerHandle>,
) -> RegisterActionView {
    match (state.step, event) {
        (RegisterStep::Start, RegisterEvent::Begin) => RegisterActionView::FindDevice,
        (RegisterStep::FindingDevice, RegisterEvent::DeviceLookup { existing }) => match existing {
            Ok(None) => RegisterActionView::FindConnectedBroker,
            Ok(Some(d)) => RegisterActionView::Fail(device_registered(d.mac_address@)),
            Err(e) => RegisterActionView::Fail(e@),
        },
        (RegisterStep::FindingBroker, RegisterEvent::BrokerLookup { found }) => match found {
            Ok(Some(_)) => RegisterActionView::CheckTopic,
            _ => RegisterActionView::Fail(broker_not_connected()),
        },
        (RegisterStep::CheckingTopic, RegisterEvent::TopicChecked { error }) => match error {
            None => if state.broker is Some {
                RegisterActionView::Store
            } else {
                RegisterActionView::Fail(broker_not_connected())
            },
            Some(detail) => RegisterActionView::Fail(AppErrorView::BadRequest(detail@)),
        },
        (RegisterStep::Storing, RegisterEvent::Stored { rows }) => match rows {
            Err(e) => RegisterActionView::Fail(e@),
            Ok(_) => if state.broker is None {
                RegisterActionView::Fail(broker_not_connected())
            } else if subscribes(state) && !has_session(state, sessions) {
                RegisterActionView::Fail(no_session(state.broker->0.uuid))
            } else if subscribes(state) && !can_subscribe(state, sessions) {
                RegisterActionView::WaitForRoom
            } else {
                RegisterActionView::CreateDocument
            },
        },
        (RegisterStep::CreatingDocument, RegisterEvent::DocumentCreated { result }) => match result {
            Ok(()) => RegisterActionView::Reply,
            Err(e) => RegisterActionView::Fail(e@),
        },
        _ => RegisterActionView::Fail(AppErrorView::InternalServerError("Unexpected registration event"@)),
    }
}

/// The step that follows when the caller is told `action` in `step`.
pub open spec fn register_next(step: RegisterStep, action: RegisterActionView) -> RegisterStep {
    match action {
        RegisterActionView::FindDevice => RegisterStep::FindingDevice,
        RegisterActionView::FindConnectedBroker => RegisterStep::FindingBroker,
        RegisterActionView::CheckTopic => RegisterStep::CheckingTopic,
        RegisterActionView::Store => RegisterStep::Storing,
        RegisterActionView::CreateDocument => RegisterStep::CreatingDocument,
        RegisterActionView::Reply => RegisterStep::Done,
        RegisterActionView::WaitForRoom => step,
        RegisterActionView::Fail(_) => if step == RegisterStep::Done {
            RegisterStep::Done
        } else {
            RegisterStep::Failed
        },
    }
}

impl Registering {
    /// The start of the registration of `device` for the owner `user_uuid`.
    pub fn new(device: DeviceCreate, user_uuid: u128) -> (r: Registering)
        ensures
            r.step == RegisterStep::Start,
            r.user_uuid == user_uuid,
            r.device == device,
            r.broker is None,
            r.topic@.len() == 0,
            r.response is None,
    {
        Registering {
            step: RegisterStep::Start,
            user_uuid,
            device,
            broker: None,
            topic: String::new(),
            response: None,
        }
    }
}

fn at(state: Registering, step: RegisterStep, action: RegisterAction) -> (r: (Registering, RegisterAction))
    ensures
        r.0.step == step,
        r.0.user_uuid == state.user_uuid,
        r.0.device == state.device,
        r.0.broker == state.broker,
        r.0.topic == state.topic,
        r.0.response == state.response,
        r.1 == action,
{
    (
        Registering {
            step,
            user_uuid: state.user_uuid,
            device: state.device,
            broker: state.broker,
            topic: state.topic,
            response: state.response,
        },
        action,
    )
}

fn fail(state: Registering, error: AppError) -> (r: (Registering, RegisterAction))
    ensures
        r.0.step == register_next(state.step, RegisterActionView::Fail(error@)),
        r.0.user_uuid == state.user_uuid,
        r.0.device == state.device,
        r.0.broker == state.broker,
        r.0.topic == state.topic,
        r.0.response == state.response,
        r.1@ == RegisterActionView::Fail(error@),
{
    let step = match state.step {
        RegisterStep::Done => RegisterStep::Done,
        _ => RegisterStep::Failed,
    };
    at(state, step, RegisterAction::Fail(error))
}

fn no_broker() -> (e: AppError)
    ensures
        e@ == broker_not_connected(),
{
    AppError::not_found(
        "Broker not connected. Connect to an MQTT broker before registering a device".to_owned(),
        "Broker not connected. Connect to an MQTT broker before registering a device".to_owned(),
    )
}

/// Takes the registration of a device one step further.
///
/// The steps follow each other in one order: make sure that no stored
/// device has the hardware address, find the connected broker, compose the
/// device's topic and let the transport library look at it, store the
/// device, tell the broker's live session to subscribe to the topic if the
/// device is a sensor, create the device's document, answer. A failure of
/// any step ends the registration with that error.
///
/// The registry changes in one step only, and only for a sensor: when the
/// rows have been stored, the subscription to the device's topic is queued
/// for the session of the connected broker. Where that session's queue is
/// full, nothing changes at all and the caller is told to wait for room and
/// to hand the same event in again; the subscription fails only where the
/// broker has no session.
pub fn device_create(state: Registering, event: RegisterEvent, manager: &mut BrokerManager) -> (r: (
    Registering,
    RegisterAction,
))
    requires
        old(manager).wf(),
    ensures
        final(manager).wf(),
        r.1@ == register_action(state, event, old(manager)@),
        r.0.step == register_next(state.step, r.1@),
        r.0.user_uuid == state.user_uuid,
        r.0.device == state.device,
        r.1 matches RegisterAction::WaitForRoom { again } ==> again == event && r.0 == state,
        match (state.step, event) {
            (RegisterStep::FindingBroker, RegisterEvent::BrokerLookup { found: Ok(Some(b)) }) => {
                &&& r.0.broker == Some(b)
                &&& r.0.topic@ == compose_topic(state.user_uuid, state.device.uuid, state.device.name@)
                &&& r.0.response == state.response
            },
            (RegisterStep::Storing, RegisterEvent::Stored { rows: Ok(rows) }) => {
                &&& r.0.broker == state.broker
                &&& r.0.topic@ == state.topic@
                &&& r.1@ == RegisterActionView::CreateDocument ==> (r.0.response is Some
                    && is_response_of(
                    r.0.response->0,
                    rows.0,
                    rows.1,
                    rows.2@,
                    state.user_uuid,
                    state.broker->0.host@ + ":"@ + decimal_text(state.broker->0.port as int),
                ))
                &&& !(r.1@ == RegisterActionView::CreateDocument) ==> r.0.response == state.response
            },
            _ => {
                &&& r.0.broker == state.broker
                &&& r.0.topic == state.topic
                &&& r.0.response == state.response
            },
        },
        if stores_rows(state, event) && subscribes(state) && can_subscribe(state, old(manager)@) {
            is_queued(
                old(manager)@,
                final(manager)@,
                state.broker->0.uuid,
                (BrokerCommand::Subscribe { topic: state.topic, qos: state.device.message.qos }),
            )
        } else {
            final(manager)@ == old(manager)@
        },
{
    match (state.step, event) {
        (RegisterStep::Start, RegisterEvent::Begin) => {
            at(state, RegisterStep::FindingDevice, RegisterAction::FindDevice)
        },
        (RegisterStep::FindingDevice, RegisterEvent::DeviceLookup { existing }) => match existing {
            Ok(found) => match device_unregistered(&found) {
                Ok(()) => at(state, RegisterStep::FindingBroker, RegisterAction::FindConnectedBroker),
                Err(e) => fail(state, e),
            },
            Err(e) => fail(state, e),
        },
        (RegisterStep::FindingBroker, RegisterEvent::BrokerLookup { found }) => {
            let connected = match found {
                Ok(broker) => connected_broker(broker),
                Err(_) => connected_broker(None),
            };
            match connected {
                Ok(b) => {
                    let topic = device_topic(state.user_uuid, &state.device);
                    (
                        Registering {
                            step: RegisterStep::CheckingTopic,
                            user_uuid: state.user_uuid,
                            device: state.device,
                            broker: Some(b),
                            topic,
                            response: state.response,
                        },
                        RegisterAction::CheckTopic,
                    )
                },
                Err(e) => fail(state, e),
            }
        },
        (RegisterStep::CheckingTopic, RegisterEvent::TopicChecked { error }) => {
            match device_topic_checked(error) {
                Ok(()) => {
                    if state.broker.is_some() {
                        at(state, RegisterStep::Storing, RegisterAction::Store)
                    } else {
                        fail(state, no_broker())
                    }
                },
                Err(e) => fail(state, e),
            }
        },
        (RegisterStep::Storing, RegisterEvent::Stored { rows }) => match rows {
            Err(e) => fail(state, e),
            Ok(stored) => {
                let (broker_uuid, url) = match &state.broker {
                    Some(b) => (b.uuid, broker_url(b)),
                    None => {
                        return fail(state, no_broker());
                    },
                };
                match device_subscribe(&state.device, broker_uuid, state.topic.clone(), manager) {
                    Err(e) => fail(state, e),
                    Ok(Some(Delivery::WaitForRoom { .. })) => {
                        at(
                            state,
                            RegisterStep::Storing,
                            RegisterAction::WaitForRoom {
                                again: RegisterEvent::Stored { rows: Ok(stored) },
                            },
                        )
                    },
                    Ok(_) => {
                        let (result_device, result_message, result_scale) = stored;
                        let answer = device_create_response(
                            result_device,
                            result_message,
                            result_scale,
                            state.user_uuid,
                            url,
                        );
                        (
                            Registering {
                                step: RegisterStep::CreatingDocument,
                                user_uuid: state.user_uuid,
                                device: state.device,
                                broker: state.broker,
                                topic: state.topic,
                                response: Some(answer),
                            },
                            RegisterAction::CreateDocument,
                        )
                    },
                }
            },
        },
        (RegisterStep::CreatingDocument, RegisterEvent::DocumentCreated { result }) => match result {
            Ok(()) => at(state, RegisterStep::Done, RegisterAction::Reply),
            Err(e) => fail(state, e),
        },
        (_, _) => fail(
            state,
            AppError::InternalServerError("Unexpected registration event".to_owned()),
        ),
    }
}

/// A subscription is queued only in the step that follows storing, and a
/// registration that has failed or is done stays so. The caller is told to
/// wait only in that step, for a sensor whose broker has a session with a
/// full queue; and for a sensor whose broker has a session that step never
/// fails.
pub proof fn lemma_register_steps(state: Registering, event: RegisterEvent, sessions: Map<u128, BrokerHandle>)
    ensures
        state.step == RegisterStep::Failed ==> register_next(
            state.step,
            register_action(state, event, sessions),
        ) == RegisterStep::Failed,
        state.step == RegisterStep::Done ==> register_next(
            state.step,
            register_action(state, event, sessions),
        ) == RegisterStep::Done,
        register_action(state, event, sessions) == RegisterActionView::Store ==> state.step
            == RegisterStep::CheckingTopic && state.broker is Some,
        register_action(state, event, sessions) == RegisterActionView::Reply ==> state.step
            == RegisterStep::CreatingDocument,
        register_action(state, event, sessions) == RegisterActionView::WaitForRoom ==> stores_rows(
            state,
            event,
        ) && subscribes(state) && has_session(state, sessions) && !can_subscribe(state, sessions),
        stores_rows(state, event) && subscribes(state) && has_session(state, sessions)
            ==> !(register_action(state, event, sessions) is Fail),
{
}

} // verus!
