//! What the API decides about devices before and after it talks to the
//! stores and to the registry of live sessions.

use vstd::prelude::*;
use vstd::string::*;
use crate::broker_model::{BrokerCommand, BrokerManager, BrokerResponse, COMMAND_QUEUE_CAPACITY};
use crate::broker_tool::{build_subscribe_topic_qos, is_queued, no_session, Delivery};
use crate::data_store::DeviceMessagesOwned;
use crate::device_message_model::{
    DeviceMessage,
    DeviceMessageCreateResponse,
    DeviceScale,
    DeviceScaleCreateResponse,
};
use crate::device_model::{Device, DeviceCreate, DeviceCreateResponse};
use crate::error_app::{AppError, AppErrorView, AppMsgError, AppMsgErrorView};
use crate::ident::{parse_uuid, uuid_parse};
use crate::text::{decimal_text, i32_text};
use crate::topic::{compose_topic, device_compose_topic};

verus! {

/// The error of a hardware address that a stored device holds already.
pub open spec fn device_registered(mac_address: Seq<char>) -> AppErrorView {
    AppErrorView::ConstraintViolation(
        AppMsgErrorView {
            api_msg_error: "Device already registered"@,
            log_msg_error: "Device already registered: "@ + mac_address,
        },
    )
}

/// Refuses to register a device whose hardware address a stored device
/// holds already. `existing` is what the lookup by that address found.
pub fn device_unregistered(existing: &Option<Device>) -> (r: Result<(), AppError>)
    ensures
        match *existing {
            Some(d) => r matches Err(e) && e@ == device_registered(d.mac_address@),
            None => r is Ok,
        },
{
    match existing {
        Some(d) => Err(
            AppError::ConstraintViolation(
                AppMsgError {
                    api_msg_error: "Device already registered".to_owned(),
                    log_msg_error: "Device already registered: ".to_owned().concat(
                        d.mac_address.as_str(),
                    ),
                },
            ),
        ),
        None => Ok(()),
    }
}

/// Refuses to adopt a device whose hardware address a stored device holds
/// already.
pub fn device_adoption(existing: &Option<Device>) -> (r: Result<(), AppError>)
    ensures
        match *existing {
            Some(_) => r matches Err(e) && e@ == AppErrorView::BadRequest("Device already registered"@),
            None => r is Ok,
        },
{
    match existing {
        Some(_) => Err(AppError::bad_request("Device already registered")),
        None => Ok(()),
    }
}

/// The error of a registration without a connected broker.
pub open spec fn broker_not_connected() -> AppErrorView {
    AppErrorView::NotFound(
        AppMsgErrorView {
            api_msg_error: "Broker not connected. Connect to an MQTT broker before registering a device"@,
            log_msg_error: "Broker not connected. Connect to an MQTT broker before registering a device"@,
        },
    )
}

/// The broker that a new device is registered with: the one that is stored
/// as connected. Without one no device can be registered.
pub fn connected_broker(found: Option<BrokerResponse>) -> (r: Result<BrokerResponse, AppError>)
    ensures
        match found {
            Some(b) => r == Ok::<BrokerResponse, AppError>(b),
            None => r matches Err(e) && e@ == broker_not_connected(),
        },
{
    match found {
        Some(b) => Ok(b),
        None => Err(
            AppError::not_found(
                "Broker not connected. Connect to an MQTT broker before registering a device".to_owned(),
                "Broker not connected. Connect to an MQTT broker before registering a device".to_owned(),
            ),
        ),
    }
}

/// The topic of a new device of the owner `user_uuid`.
pub fn device_topic(user_uuid: u128, device: &DeviceCreate) -> (topic: String)
    ensures
        topic@ == compose_topic(user_uuid, device.uuid, device.name@),
{
    device_compose_topic(user_uuid, device.uuid, device.name.as_str())
}

/// Refuses a topic that the transport library objects to.
pub fn device_topic_checked(topic_error: Option<String>) -> (r: Result<(), AppError>)
    ensures
        match topic_error {
            Some(detail) => r matches Err(e) && e@ == AppErrorView::BadRequest(detail@),
            None => r is Ok,
        },
{
    match topic_error {
        Some(detail) => Err(AppError::BadRequest(detail)),
        None => Ok(()),
    }
}

/// Subscribes the live session of the connected broker to the topic of a
/// device that has just been stored, if the device is a sensor. For any
/// other device nothing is sent, the registry stays as it is and the answer
/// is `None`.
///
/// For a sensor the subscription fails only where the broker has no
/// session. With room in the session's queue it is queued; with a full
/// queue nothing changes and the answer is to wait for room and to send the
/// subscription again.
pub fn device_subscribe(device: &DeviceCreate, broker_uuid: u128, topic: String, manager: &mut BrokerManager) -> (r:
    Result<Option<Delivery>, AppError>)
    requires
        old(manager).wf(),
    ensures
        final(manager).wf(),
        device.device_type_int != 0 ==> r is Ok && r->Ok_0 is None && final(manager)@ == old(
            manager,
        )@,
        device.device_type_int == 0 ==> (r is Ok <==> old(manager)@.contains_key(broker_uuid)),
        device.device_type_int == 0 ==> match r {
            Ok(Some(Delivery::Queued)) => is_queued(
                old(manager)@,
                final(manager)@,
                broker_uuid,
                (BrokerCommand::Subscribe { topic, qos: device.message.qos }),
            ),
            Ok(Some(Delivery::WaitForRoom { topic: again, qos })) => {
                &&& old(manager)@[broker_uuid].commands@.len() == COMMAND_QUEUE_CAPACITY
                &&& final(manager)@ == old(manager)@
                &&& again == topic
                &&& qos == device.message.qos
            },
            Ok(None) => false,
            Err(e) => final(manager)@ == old(manager)@ && e@ == no_session(broker_uuid),
        },
{
    if device.device_type_int == 0 {
        match build_subscribe_topic_qos(broker_uuid, topic, device.message.qos, manager) {
            Ok(delivery) => Ok(Some(delivery)),
            Err(e) => Err(e),
        }
    } else {
        Ok(None)
    }
}

/// The address of a broker as a device is told it: host, colon, port.
pub fn broker_url(broker: &BrokerResponse) -> (url: String)
    ensures
        url@ == broker.host@ + ":"@ + decimal_text(broker.port as int),
{
    broker.host.clone().concat(":").concat(i32_text(broker.port).as_str())
}

/// Whether `r` shows the stored scale `scale`.
pub open spec fn shows_scale(r: DeviceScaleCreateResponse, scale: DeviceScale) -> bool {
    &&& r.uuid == scale.uuid
    &&& r.device_id == scale.device_id
    &&& r.metric == scale.metric
    &&& r.unit == scale.unit
    &&& r.created_at == scale.created_at
    &&& r.updated_at == scale.updated_at
    &&& r.deleted_at == scale.deleted_at
}

fn scale_response(scale: DeviceScale) -> (r: DeviceScaleCreateResponse)
    ensures
        shows_scale(r, scale),
{
    DeviceScaleCreateResponse {
        uuid: scale.uuid,
        device_id: scale.device_id,
        metric: scale.metric,
        unit: scale.unit,
        created_at: scale.created_at,
        updated_at: scale.updated_at,
        deleted_at: scale.deleted_at,
    }
}

/// Whether `r` is the answer for these stored rows: the device, its
/// message and its scales in their order, with the owner and the address of
/// the broker.
pub open spec fn is_response_of(
    r: DeviceCreateResponse,
    result_device: Device,
    result_message: DeviceMessage,
    result_scale: Seq<DeviceScale>,
    user_uuid: u128,
    broker_url: Seq<char>,
) -> bool {
    &&& r.uuid == result_device.uuid
    &&& r.user_uuid == user_uuid
    &&& r.name == result_device.name
    &&& r.device_type_int == result_device.device_type_int
    &&& r.device_type_text == result_device.device_type_text
    &&& r.board_type_int == result_device.board_type_int
    &&& r.board_type_text == result_device.board_type_text
    &&& r.mac_address == result_device.mac_address
    &&& r.device_condition_int == result_device.device_condition_int
    &&& r.device_condition_text == result_device.device_condition_text
    &&& r.created_at == result_device.created_at
    &&& r.updated_at == result_device.updated_at
    &&& r.deleted_at == result_device.deleted_at
    &&& r.broker_url@ == broker_url
    &&& r.message.uuid == result_message.uuid
    &&& r.message.device_uuid == result_device.uuid
    &&& r.message.topic == result_message.topic
    &&& r.message.payload == result_message.payload
    &&& r.message.qos == result_message.qos
    &&& r.message.retained == result_message.retained
    &&& r.message.publisher == result_message.publisher
    &&& r.message.subscriber == result_message.subscriber
    &&& r.message.command_start == result_message.command_start
    &&& r.message.command_end == result_message.command_end
    &&& r.message.command_last == result_message.command_last
    &&& r.message.command_last_time == result_message.command_last_time
    &&& r.message.created_at == result_message.created_at
    &&& r.message.updated_at == result_message.updated_at
    &&& r.message.deleted_at == result_message.deleted_at
    &&& r.scale@.len() == result_scale.len()
    &&& forall|i: int| 0 <= i < r.scale@.len() ==> shows_scale(#[trigger] r.scale@[i], result_scale[i])
}

/// What the API answers once a device, its message and its scales are
/// stored: the stored rows, put together, with the owner and the address of
/// the broker.
pub fn device_create_response(
    result_device: Device,
    result_message: DeviceMessage,
    result_scale: Vec<DeviceScale>,
    user_uuid: u128,
    broker_url: String,
) -> (r: DeviceCreateResponse)
    ensures
        is_response_of(r, result_device, result_message, result_scale@, user_uuid, broker_url@),
{
    let ghost stored = result_scale@;
    let mut remaining = result_scale;
    let mut reversed: Vec<DeviceScaleCreateResponse> = Vec::new();
    while remaining.len() > 0
        invariant
            remaining@.len() + reversed@.len() == stored.len(),
            remaining@ == stored.take(remaining@.len() as int),
            forall|j: int|
                0 <= j < reversed@.len() ==> shows_scale(
                    #[trigger] reversed@[j],
                    stored[stored.len() - 1 - j],
                ),
        decreases remaining@.len(),
    {
        let ghost before = remaining@;
        let last = remaining.pop().unwrap();
        assert(remaining@ =~= stored.take(remaining@.len() as int));
        reversed.push(scale_response(last));
    }
    let mut scale: Vec<DeviceScaleCreateResponse> = Vec::new();
    while reversed.len() > 0
        invariant
            scale@.len() + reversed@.len() == stored.len(),
            forall|j: int|
                0 <= j < reversed@.len() ==> shows_scale(
                    #[trigger] reversed@[j],
                    stored[stored.len() - 1 - j],
                ),
            forall|j: int| 0 <= j < scale@.len() ==> shows_scale(#[trigger] scale@[j], stored[j]),
        decreases reversed@.len(),
    {
        let next = reversed.pop().unwrap();
        scale.push(next);
    }
    DeviceCreateResponse {
        uuid: result_device.uuid,
        user_uuid,
        name: result_device.name,
        device_type_int: result_device.device_type_int,
        device_type_text: result_device.device_type_text,
        board_type_int: result_device.board_type_int,
        board_type_text: result_device.board_type_text,
        mac_address: result_device.mac_address,
        device_condition_int: result_device.device_condition_int,
        device_condition_text: result_device.device_condition_text,
        created_at: result_device.created_at,
        updated_at: result_device.updated_at,
        deleted_at: result_device.deleted_at,
        message: DeviceMessageCreateResponse {
            uuid: result_message.uuid,
            device_uuid: result_device.uuid,
            topic: result_message.topic,
            payload: result_message.payload,
            qos: result_message.qos,
            retained: result_message.retained,
            publisher: result_message.publisher,
            subscriber: result_message.subscriber,
            command_start: result_message.command_start,
            command_end: result_message.command_end,
            command_last: result_message.command_last,
            command_last_time: result_message.command_last_time,
            created_at: result_message.created_at,
            updated_at: result_message.updated_at,
            deleted_at: result_message.deleted_at,
        },
        scale,
        broker_url,
    }
}

/// How many devices a user owns, for a page that holds `on_page` of them:
/// none where the page is empty, what the count gave otherwise (zero where
/// it gave no number).
pub fn get_device_count_total_owned_user(on_page: usize, count: Option<i64>) -> (r: i64)
    ensures
        r == (if on_page == 0 {
            0i64
        } else {
            match count {
                Some(n) => n,
                None => 0i64,
            }
        }),
{
    if on_page == 0 {
        0
    } else {
        match count {
            Some(n) => n,
            None => 0,
        }
    }
}

/// Whether the entry at `i` names the device `device_uuid`.
pub open spec fn names_device(messages: Seq<DeviceMessagesOwned>, i: int, device_uuid: u128) -> bool {
    uuid_parse(messages[i].device_uuid@) == Some(device_uuid)
}

/// Where, in the latest readings that a list query found, those of the
/// device `device_uuid` stand: at the last entry that names the device, in
/// whatever spelling; `None` where no entry names it.
pub fn find_device_messages(messages: &Vec<DeviceMessagesOwned>, device_uuid: u128) -> (r: Option<
    usize,
>)
    ensures
        match r {
            Some(at) => {
                &&& at < messages@.len()
                &&& names_device(messages@, at as int, device_uuid)
                &&& forall|j: int| at < j < messages@.len() ==> !names_device(messages@, j, device_uuid)
            },
            None => forall|j: int| 0 <= j < messages@.len() ==> !names_device(messages@, j, device_uuid),
        },
{
    let mut i: usize = messages.len();
    while i > 0
        invariant
            i <= messages@.len(),
            forall|j: int| i <= j < messages@.len() ==> !names_device(messages@, j, device_uuid),
        decreases i,
    {
        i = i - 1;
        match parse_uuid(messages[i].device_uuid.as_str()) {
            Some(named) => {
                if named == device_uuid {
                    return Some(i);
                }
            },
            None => {},
        }
    }
    None
}

} // verus!
