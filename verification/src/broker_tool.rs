//! The rules around a broker's session: what a session is opened with, which
//! subscriptions it starts with, how the stored `connected` flag follows the
//! live state, and how a runtime subscription reaches a live session.

use vstd::prelude::*;
use vstd::string::*;
use crate::broker_model::{
    BrokerCommand,
    BrokerHandle,
    BrokerManager,
    BrokerResponse,
    SendOutcome,
    COMMAND_QUEUE_CAPACITY,
};
use crate::error_app::{AppError, AppErrorView, AppMsgErrorView};
use crate::ident::{format_uuid, uuid_text};
use crate::transport::{ConnectionOptions, DeviceMessageSubscribe, Options, SubscribeTopicQos, Will};

verus! {

/// The address and identity a session to `broker` is opened with. A port
/// outside the unsigned range wraps around, as the stored number is signed.
pub fn create_options(broker: &BrokerResponse) -> (o: Options)
    ensures
        o.server_host@ == broker.host@,
        o.server_port == broker.port as u32,
        broker.port >= 0 ==> o.server_port == broker.port,
        o.client_id@ == broker.client_id@,
        o.version == broker.version,
{
    Options {
        server_host: broker.host.clone(),
        server_port: #[verifier::truncate]
        (broker.port as u32),
        client_id: broker.client_id.clone(),
        version: broker.version,
    }
}

/// Whether `broker` has a last will: it has one when all four parts of it
/// are stored.
pub open spec fn has_last_will(broker: &BrokerResponse) -> bool {
    broker.last_will_topic is Some && broker.last_will_message is Some && broker.last_will_qos is Some
        && broker.last_will_retain is Some
}

/// The last will of `broker`, if it has one.
pub fn create_last_will(broker: &BrokerResponse) -> (w: Option<Will>)
    ensures
        w is Some <==> has_last_will(broker),
        w matches Some(will) ==> {
            &&& will.topic@ == broker.last_will_topic->0@
            &&& will.payload@ == broker.last_will_message->0@
            &&& will.qos == broker.last_will_qos->0
            &&& will.retained == broker.last_will_retain->0
        },
{
    match (
        &broker.last_will_topic,
        &broker.last_will_message,
        broker.last_will_qos,
        broker.last_will_retain,
    ) {
        (Some(topic), Some(payload), Some(qos), Some(retained)) => Some(
            Will { topic: topic.clone(), payload: payload.clone(), qos, retained },
        ),
        _ => None,
    }
}

/// How a session to `broker` behaves: its keep-alive interval, whether it
/// starts clean, and its last will. A negative interval wraps around, as the
/// stored number is signed.
pub fn create_connection_options(broker: &BrokerResponse) -> (c: ConnectionOptions)
    ensures
        c.keep_alive == broker.keep_alive as u64,
        broker.keep_alive >= 0 ==> c.keep_alive == broker.keep_alive,
        c.clean_session == broker.clean_session,
        c.will is Some <==> has_last_will(broker),
        c.will matches Some(will) ==> {
            &&& will.topic@ == broker.last_will_topic->0@
            &&& will.payload@ == broker.last_will_message->0@
            &&& will.qos == broker.last_will_qos->0
            &&& will.retained == broker.last_will_retain->0
        },
{
    let will = create_last_will(broker);
    ConnectionOptions {
        keep_alive: #[verifier::truncate]
        (broker.keep_alive as u64),
        clean_session: broker.clean_session,
        will,
    }
}

/// The subscription batch for the devices in `subs`: their topics and their
/// qualities of service, in the order of `subs`.
pub fn build_subscribe_all_topics_qoss(subs: Vec<DeviceMessageSubscribe>) -> (batch:
    SubscribeTopicQos)
    ensures
        batch.wf(),
        batch.is_batch_of(subs@),
{
    let mut topics: Vec<String> = Vec::new();
    let mut qoss: Vec<i32> = Vec::new();
    let mut i: usize = 0;
    while i < subs.len()
        invariant
            i <= subs.len(),
            topics@.len() == i,
            qoss@.len() == i,
            forall|j: int|
                0 <= j < i ==> (#[trigger] topics@[j])@ == subs@[j].topic@ && qoss@[j]
                    == subs@[j].qos,
        decreases subs.len() - i,
    {
        let ghost topics_before = topics@;
        let ghost qoss_before = qoss@;
        topics.push(subs[i].topic.clone());
        qoss.push(subs[i].qos);
        proof {
            assert forall|j: int| 0 <= j < i + 1 implies (#[trigger] topics@[j])@
                == subs@[j].topic@ && qoss@[j] == subs@[j].qos by {
                if j < i {
                    assert(topics@[j] == topics_before[j]);
                    assert(qoss@[j] == qoss_before[j]);
                }
            }
        }
        i = i + 1;
    }
    SubscribeTopicQos { topics, qoss }
}

/// What the state synchronizer does to the stored `connected` flag.
#[derive(Debug, Clone, Copy, PartialEq, Eq, Structural)]
pub enum StateWrite {
    /// The flag is written.
    Write,
    /// The flag already has the wanted value and is left alone.
    Unchanged,
}

/// What the state synchronizer decides for a broker whose stored flag is
/// `stored` (`None`: no such broker). With `search_broker` the stored flag is
/// looked at first: an equal flag is left alone and a missing broker is an
/// error. Without it the flag is written whatever is stored.
pub open spec fn state_decision(
    broker_uuid: u128,
    connected: bool,
    stored: Option<bool>,
    search_broker: bool,
) -> Result<StateWrite, AppErrorView> {
    if !search_broker {
        Ok(StateWrite::Write)
    } else {
        match stored {
            Some(flag) => if flag == connected {
                Ok(StateWrite::Unchanged)
            } else {
                Ok(StateWrite::Write)
            },
            None => Err(
                AppErrorView::NotFound(
                    AppMsgErrorView {
                        api_msg_error: "Broker not found"@,
                        log_msg_error: "Broker not found, uuid: "@ + uuid_text(broker_uuid),
                    },
                ),
            ),
        }
    }
}

/// How many writes a decision of the state synchronizer performs.
pub open spec fn writes_of(decision: Result<StateWrite, AppErrorView>) -> nat {
    if decision == Ok::<StateWrite, AppErrorView>(StateWrite::Write) {
        1
    } else {
        0
    }
}

/// The stored flag after a decision of the state synchronizer has been
/// carried out. Writing to a broker that is not stored changes nothing.
pub open spec fn stored_after(
    stored: Option<bool>,
    connected: bool,
    decision: Result<StateWrite, AppErrorView>,
) -> Option<bool> {
    if stored is Some && decision == Ok::<StateWrite, AppErrorView>(StateWrite::Write) {
        Some(connected)
    } else {
        stored
    }
}

/// Decides what to do to the stored `connected` flag of `broker_uuid` so that
/// it becomes `connected`. `stored` is the flag as read from the store
/// (`None`: no such broker); it is looked at only with `search_broker`.
pub fn broker_change_state(
    broker_uuid: &u128,
    connected: bool,
    stored: Option<bool>,
    search_broker: bool,
) -> (r: Result<StateWrite, AppError>)
    ensures
        match r {
            Ok(w) => state_decision(*broker_uuid, connected, stored, search_broker) == Ok::<
                StateWrite,
                AppErrorView,
            >(w),
            Err(e) => state_decision(*broker_uuid, connected, stored, search_broker) == Err::<
                StateWrite,
                AppErrorView,
            >(e@),
        },
{
    if search_broker {
        match stored {
            Some(flag) => {
                if flag == connected {
                    return Ok(StateWrite::Unchanged);
                }
            },
            None => {
                return Err(
                    AppError::not_found(
                        "Broker not found".to_owned(),
                        "Broker not found, uuid: ".to_owned().concat(
                            format_uuid(*broker_uuid).as_str(),
                        ),
                    ),
                );
            },
        }
    }
    Ok(StateWrite::Write)
}

/// Synchronizing a stored broker to the same state twice in a row, looking
/// at the stored flag each time, never writes the second time; the two
/// together write once if the flag differed at first and not at all
/// otherwise.
pub proof fn lemma_repeated_sync_writes_once(broker_uuid: u128, connected: bool, stored: bool)
    ensures
        ({
            let first = state_decision(broker_uuid, connected, Some(stored), true);
            let between = stored_after(Some(stored), connected, first);
            let second = state_decision(broker_uuid, connected, between, true);
            &&& between == Some(connected)
            &&& second == Ok::<StateWrite, AppErrorView>(StateWrite::Unchanged)
            &&& writes_of(first) + writes_of(second) == (if stored == connected {
                0nat
            } else {
                1nat
            })
        }),
{
}

/// Bringing a stored broker to a state that it is not in, twice in a row and
/// looking at the stored flag each time, writes exactly once: the first
/// time.
pub proof fn lemma_two_syncs_one_write(broker_uuid: u128, connected: bool, stored: bool)
    requires
        stored != connected,
    ensures
        ({
            let first = state_decision(broker_uuid, connected, Some(stored), true);
            let second = state_decision(
                broker_uuid,
                connected,
                stored_after(Some(stored), connected, first),
                true,
            );
            &&& writes_of(first) == 1
            &&& writes_of(second) == 0
            &&& writes_of(first) + writes_of(second) == 1
        }),
{
}

/// The error of a command for a broker that has no live session.
pub open spec fn no_session(broker_uuid: u128) -> AppErrorView {
    AppErrorView::NotFound(
        AppMsgErrorView {
            api_msg_error: "Broker not found"@,
            log_msg_error: "Broker not found, uuid: "@ + uuid_text(broker_uuid),
        },
    )
}

/// What became of a subscription that was sent to a live session.
#[derive(Debug)]
pub enum Delivery {
    /// The subscription waits in the session's queue.
    Queued,
    /// The session's queue is full and nothing has changed: the caller is to
    /// wait until the supervising loop has made room, and then to send this
    /// subscription again.
    WaitForRoom { topic: String, qos: i32 },
}

/// Whether `after` is `before` with `command` queued last for `broker_uuid`
/// and nothing else changed.
pub open spec fn is_queued(
    before: Map<u128, BrokerHandle>,
    after: Map<u128, BrokerHandle>,
    broker_uuid: u128,
    command: BrokerCommand,
) -> bool {
    &&& before.contains_key(broker_uuid)
    &&& before[broker_uuid].commands@.len() < COMMAND_QUEUE_CAPACITY
    &&& after.dom() == before.dom()
    &&& after[broker_uuid].client == before[broker_uuid].client
    &&& after[broker_uuid].cancelled == before[broker_uuid].cancelled
    &&& after[broker_uuid].commands@ == before[broker_uuid].commands@.push(command)
    &&& forall|other: u128|
        other != broker_uuid && #[trigger] before.contains_key(other) ==> after[other]
            == before[other]
}

/// Sends a subscription for `topic` to the live session of `broker_uuid`.
///
/// Fails only where the broker has no session. Where the session's queue
/// has room, the subscription is queued behind the commands that waited
/// before it. Where the queue is full, nothing changes and the answer is to
/// wait for room and to send the same subscription again; so a subscription
/// for a broker with a session is never refused.
pub fn build_subscribe_topic_qos(
    broker_uuid: u128,
    topic: String,
    qos: i32,
    manager: &mut BrokerManager,
) -> (r: Result<Delivery, AppError>)
    requires
        old(manager).wf(),
    ensures
        final(manager).wf(),
        r is Ok <==> old(manager)@.contains_key(broker_uuid),
        match r {
            Ok(Delivery::Queued) => is_queued(
                old(manager)@,
                final(manager)@,
                broker_uuid,
                (BrokerCommand::Subscribe { topic, qos }),
            ),
            Ok(Delivery::WaitForRoom { topic: again, qos: again_qos }) => {
                &&& old(manager)@[broker_uuid].commands@.len() == COMMAND_QUEUE_CAPACITY
                &&& final(manager)@ == old(manager)@
                &&& again == topic
                &&& again_qos == qos
            },
            Err(e) => final(manager)@ == old(manager)@ && e@ == no_session(broker_uuid),
        },
{
    match manager.send(&broker_uuid, BrokerCommand::Subscribe { topic, qos }) {
        SendOutcome::Queued => Ok(Delivery::Queued),
        SendOutcome::QueueFull(BrokerCommand::Subscribe { topic, qos }) => Ok(
            Delivery::WaitForRoom { topic, qos },
        ),
        SendOutcome::QueueFull(BrokerCommand::Unsubscribe { topic }) => Ok(
            Delivery::WaitForRoom { topic, qos },
        ),
        SendOutcome::NoSession(_) => Err(
            AppError::not_found(
                "Broker not found".to_owned(),
                "Broker not found, uuid: ".to_owned().concat(format_uuid(broker_uuid).as_str()),
            ),
        ),
    }
}

} // verus!
