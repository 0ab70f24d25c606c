use iot_fleet::broker_model::{
    BrokerCommand, BrokerHandle, BrokerManager, BrokerResponse, SendOutcome,
};
use iot_fleet::device_message_model::{
    DeviceMessage, DeviceMessageCreateRequest, DeviceScale, MessageChecks,
};
use iot_fleet::device_model::{Device, DeviceCreate, DeviceCreateRequest};
use iot_fleet::device_registration::{
    device_create, RegisterAction, RegisterEvent, RegisterStep, Registering,
};
use iot_fleet::error_app::AppError;

const OWNER: u128 = 0x11111111_1111_1111_1111_111111111111;
const BROKER: u128 = 8;

fn device(kind: &str) -> DeviceCreate {
    let request = DeviceCreateRequest {
        name: "sensor1".to_string(),
        device_type_str: kind.to_string(),
        board_type_str: "esp32".to_string(),
        sensor_type: Some("DHT22".to_string()),
        actuator_type: None,
        adopted_status: "adopted".to_string(),
        mac_address: "12:34:56:78:9a:bc".to_string(),
        message: DeviceMessageCreateRequest {
            payload: "on".to_string(),
            qos: 2,
            retained: false,
            publisher: None,
            subscriber: Some(true),
            command_start: None,
            command_end: None,
        },
        scale: None,
    };
    let mut d =
        DeviceCreate::new(&request, 9, &MessageChecks { payload_error: None, qos_error: None })
            .unwrap();
    d.uuid = 0x22222222_2222_2222_2222_222222222222;
    d
}

fn broker() -> BrokerResponse {
    BrokerResponse {
        uuid: BROKER,
        host: "mqtt.example".to_string(),
        port: 1883,
        client_id: "c".to_string(),
        version: 3,
        version_text: "3".to_string(),
        keep_alive: 1,
        clean_session: false,
        last_will_topic: None,
        last_will_message: None,
        last_will_qos: None,
        last_will_retain: None,
        connected: true,
        created_at: None,
        updated_at: None,
        deleted_at: None,
    }
}

fn rows() -> (Device, DeviceMessage, Vec<DeviceScale>) {
    (
        Device {
            id: 4,
            uuid: 0x22222222_2222_2222_2222_222222222222,
            user_id: 9,
            name: "sensor1".to_string(),
            device_type_int: 0,
            device_type_text: "Sensor".to_string(),
            board_type_int: 0,
            board_type_text: "ESP32".to_string(),
            sensor_type: None,
            actuator_type: None,
            device_condition_int: 0,
            device_condition_text: "Adopted".to_string(),
            mac_address: "12:34:56:78:9a:bc".to_string(),
            created_at: Some(1),
            updated_at: None,
            deleted_at: None,
        },
        DeviceMessage {
            id: 1,
            uuid: 11,
            device_id: 4,
            topic: "t".to_string(),
            payload: "on".to_string(),
            qos: 2,
            retained: false,
            publisher: None,
            subscriber: Some(true),
            command_start: None,
            command_end: None,
            command_last: None,
            command_last_time: None,
            created_at: None,
            updated_at: None,
            deleted_at: None,
        },
        Vec::new(),
    )
}

fn until_storing(kind: &str, m: &mut BrokerManager) -> Registering {
    let state = Registering::new(device(kind), OWNER);
    assert_eq!(state.step, RegisterStep::Start);
    let (state, action) = device_create(state, RegisterEvent::Begin, m);
    assert!(matches!(action, RegisterAction::FindDevice));
    assert_eq!(state.step, RegisterStep::FindingDevice);
    let (state, action) =
        device_create(state, RegisterEvent::DeviceLookup { existing: Ok(None) }, m);
    assert!(matches!(action, RegisterAction::FindConnectedBroker));
    let (state, action) =
        device_create(state, RegisterEvent::BrokerLookup { found: Ok(Some(broker())) }, m);
    assert!(matches!(action, RegisterAction::CheckTopic));
    assert_eq!(
        state.topic,
        "11111111-1111-1111-1111-111111111111/22222222-2222-2222-2222-222222222222/sensor1"
    );
    let (state, action) = device_create(state, RegisterEvent::TopicChecked { error: None }, m);
    assert!(matches!(action, RegisterAction::Store));
    assert_eq!(state.step, RegisterStep::Storing);
    state
}

#[test]
fn a_sensor_is_stored_then_subscribed_then_documented() {
    let mut m = BrokerManager::new();
    m.insert(BROKER, BrokerHandle::new(1));
    let state = until_storing("sensor", &mut m);
    assert!(m.get(&BROKER).unwrap().commands.is_empty());
    let (state, action) = device_create(state, RegisterEvent::Stored { rows: Ok(rows()) }, &mut m);
    assert!(matches!(action, RegisterAction::CreateDocument));
    assert_eq!(state.step, RegisterStep::CreatingDocument);
    let queued = m.next_command(&BROKER).unwrap();
    assert!(matches!(
        queued,
        BrokerCommand::Subscribe { topic, qos: 2 }
            if topic == "11111111-1111-1111-1111-111111111111/22222222-2222-2222-2222-222222222222/sensor1"
    ));
    let answer = state.response.as_ref().unwrap();
    assert_eq!(answer.user_uuid, OWNER);
    assert_eq!(answer.uuid, 0x22222222_2222_2222_2222_222222222222);
    assert_eq!(answer.broker_url, "mqtt.example:1883");
    assert_eq!(answer.message.uuid, 11);
    let (state, action) =
        device_create(state, RegisterEvent::DocumentCreated { result: Ok(()) }, &mut m);
    assert!(matches!(action, RegisterAction::Reply));
    assert_eq!(state.step, RegisterStep::Done);
    assert!(state.response.is_some());
    let (state, action) = device_create(state, RegisterEvent::Begin, &mut m);
    assert!(matches!(action, RegisterAction::Fail(AppError::InternalServerError(_))));
    assert_eq!(state.step, RegisterStep::Done);
}

#[test]
fn an_actuator_is_not_subscribed() {
    let mut m = BrokerManager::new();
    m.insert(BROKER, BrokerHandle::new(1));
    let state = until_storing("actuator", &mut m);
    let (state, action) = device_create(state, RegisterEvent::Stored { rows: Ok(rows()) }, &mut m);
    assert!(matches!(action, RegisterAction::CreateDocument));
    assert!(m.next_command(&BROKER).is_none());
    assert!(state.response.is_some());
    let mut none = BrokerManager::new();
    let state = until_storing("actuator", &mut none);
    let (_, action) = device_create(state, RegisterEvent::Stored { rows: Ok(rows()) }, &mut none);
    assert!(matches!(action, RegisterAction::CreateDocument));
}

#[test]
fn a_sensor_needs_the_session_of_the_connected_broker() {
    let mut m = BrokerManager::new();
    let state = until_storing("sensor", &mut m);
    let (state, action) = device_create(state, RegisterEvent::Stored { rows: Ok(rows()) }, &mut m);
    assert_eq!(state.step, RegisterStep::Failed);
    assert!(state.response.is_none());
    match action {
        RegisterAction::Fail(AppError::NotFound(e)) => {
            assert_eq!(e.api_msg_error, "Broker not found");
            assert_eq!(e.log_msg_error, "Broker not found, uuid: 00000000-0000-0000-0000-000000000008");
        }
        other => panic!("unexpected {:?}", other),
    }
    assert_eq!(m.len(), 0);
}

#[test]
fn a_sensor_waits_for_room_and_is_then_subscribed() {
    let mut m = BrokerManager::new();
    m.insert(BROKER, BrokerHandle::new(1));
    for i in 0..32 {
        let filler = BrokerCommand::Unsubscribe { topic: format!("f{}", i) };
        assert!(matches!(m.send(&BROKER, filler), SendOutcome::Queued));
    }
    let state = until_storing("sensor", &mut m);
    let (state, action) = device_create(state, RegisterEvent::Stored { rows: Ok(rows()) }, &mut m);
    assert_eq!(state.step, RegisterStep::Storing);
    assert!(state.response.is_none());
    assert_eq!(m.get(&BROKER).unwrap().commands.len(), 32);
    let again = match action {
        RegisterAction::WaitForRoom { again } => again,
        other => panic!("unexpected {:?}", other),
    };
    match &again {
        RegisterEvent::Stored { rows: Ok((device, message, scales)) } => {
            assert_eq!(device.id, 4);
            assert_eq!(message.uuid, 11);
            assert!(scales.is_empty());
        }
        other => panic!("unexpected {:?}", other),
    }
    let (state, action) = device_create(state, again, &mut m);
    let again = match action {
        RegisterAction::WaitForRoom { again } => again,
        other => panic!("unexpected {:?}", other),
    };
    assert_eq!(state.step, RegisterStep::Storing);
    assert!(m.next_command(&BROKER).is_some());
    let (state, action) = device_create(state, again, &mut m);
    assert!(matches!(action, RegisterAction::CreateDocument));
    assert_eq!(state.step, RegisterStep::CreatingDocument);
    let queue = &m.get(&BROKER).unwrap().commands;
    assert_eq!(queue.len(), 32);
    assert!(matches!(
        queue.last().unwrap(),
        BrokerCommand::Subscribe { topic, qos: 2 }
            if topic == "11111111-1111-1111-1111-111111111111/22222222-2222-2222-2222-222222222222/sensor1"
    ));
    assert_eq!(state.response.as_ref().unwrap().uuid, 0x22222222_2222_2222_2222_222222222222);
}

#[test]
fn a_registration_fails_at_the_first_obstacle() {
    let mut m = BrokerManager::new();
    let state = Registering::new(device("sensor"), OWNER);
    let (state, _) = device_create(state, RegisterEvent::Begin, &mut m);
    let (state, action) =
        device_create(state, RegisterEvent::DeviceLookup { existing: Ok(Some(rows().0)) }, &mut m);
    assert_eq!(state.step, RegisterStep::Failed);
    match action {
        RegisterAction::Fail(AppError::ConstraintViolation(e)) => {
            assert_eq!(e.api_msg_error, "Device already registered");
            assert_eq!(e.log_msg_error, "Device already registered: 12:34:56:78:9a:bc");
        }
        other => panic!("unexpected {:?}", other),
    }
    let (state, action) =
        device_create(state, RegisterEvent::DeviceLookup { existing: Ok(None) }, &mut m);
    assert_eq!(state.step, RegisterStep::Failed);
    assert!(matches!(action, RegisterAction::Fail(AppError::InternalServerError(_))));

    let state = Registering::new(device("sensor"), OWNER);
    let (state, _) = device_create(state, RegisterEvent::Begin, &mut m);
    let failed = RegisterEvent::DeviceLookup { existing: Err(AppError::DBError("down".to_string())) };
    let (_, action) = device_create(state, failed, &mut m);
    assert!(matches!(action, RegisterAction::Fail(AppError::DBError(d)) if d == "down"));

    for found in [Ok(None), Err(AppError::DBError("down".to_string()))] {
        let state = Registering::new(device("sensor"), OWNER);
        let (state, _) = device_create(state, RegisterEvent::Begin, &mut m);
        let (state, _) =
            device_create(state, RegisterEvent::DeviceLookup { existing: Ok(None) }, &mut m);
        let (state, action) = device_create(state, RegisterEvent::BrokerLookup { found }, &mut m);
        assert_eq!(state.step, RegisterStep::Failed);
        match action {
            RegisterAction::Fail(AppError::NotFound(e)) => assert_eq!(
                e.api_msg_error,
                "Broker not connected. Connect to an MQTT broker before registering a device"
            ),
            other => panic!("unexpected {:?}", other),
        }
    }
}

#[test]
fn a_refused_topic_or_a_failed_store_ends_the_registration() {
    let mut m = BrokerManager::new();
    m.insert(BROKER, BrokerHandle::new(1));
    let state = Registering::new(device("sensor"), OWNER);
    let (state, _) = device_create(state, RegisterEvent::Begin, &mut m);
    let (state, _) = device_create(state, RegisterEvent::DeviceLookup { existing: Ok(None) }, &mut m);
    let (state, _) =
        device_create(state, RegisterEvent::BrokerLookup { found: Ok(Some(broker())) }, &mut m);
    let refused = RegisterEvent::TopicChecked { error: Some("wildcard".to_string()) };
    let (state, action) = device_create(state, refused, &mut m);
    assert_eq!(state.step, RegisterStep::Failed);
    assert!(matches!(action, RegisterAction::Fail(AppError::BadRequest(d)) if d == "wildcard"));

    let state = until_storing("sensor", &mut m);
    let failed = RegisterEvent::Stored { rows: Err(AppError::DBError("full".to_string())) };
    let (state, action) = device_create(state, failed, &mut m);
    assert_eq!(state.step, RegisterStep::Failed);
    assert!(matches!(action, RegisterAction::Fail(AppError::DBError(d)) if d == "full"));
    assert!(m.next_command(&BROKER).is_none());

    let state = until_storing("sensor", &mut m);
    let (state, _) = device_create(state, RegisterEvent::Stored { rows: Ok(rows()) }, &mut m);
    let failed = RegisterEvent::DocumentCreated { result: Err(AppError::mongo("dup".to_string())) };
    let (state, action) = device_create(state, failed, &mut m);
    assert_eq!(state.step, RegisterStep::Failed);
    assert!(matches!(action, RegisterAction::Fail(AppError::MongoDBError(_))));
}
