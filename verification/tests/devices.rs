use iot_fleet::broker_model::{BrokerCommand, BrokerHandle, BrokerManager, BrokerResponse};
use iot_fleet::data_store::DeviceMessagesOwned;
use iot_fleet::device_handler::{
    broker_url, connected_broker, device_adoption, device_create_response, device_subscribe,
    device_topic, device_topic_checked, device_unregistered, find_device_messages,
    get_device_count_total_owned_user,
};
use iot_fleet::device_message_model::{
    DeviceMessage, DeviceMessageCreate, DeviceMessageCreateRequest, DeviceScale, DeviceScaleCreate,
    MessageChecks,
};
use iot_fleet::broker_tool::Delivery;
use iot_fleet::device_model::{
    mac_address_error, Device, DeviceAdoptionRequest, DeviceCreate, DeviceCreateRequest,
    MacAddressError,
};
use iot_fleet::device_types::{BoardType, BoarderError, DeviceCondition, DeviceType};
use iot_fleet::error_app::AppError;
use iot_fleet::latest_values::LatestValues;

fn bad_request<T: std::fmt::Debug>(r: Result<T, AppError>) -> String {
    match r {
        Err(AppError::BadRequest(m)) => m,
        other => panic!("expected a bad request, got {:?}", other),
    }
}

fn no_objection() -> MessageChecks {
    MessageChecks { payload_error: None, qos_error: None }
}

fn message_request() -> DeviceMessageCreateRequest {
    DeviceMessageCreateRequest {
        payload: "on".to_string(),
        qos: 1,
        retained: true,
        publisher: None,
        subscriber: Some(true),
        command_start: Some(1),
        command_end: None,
    }
}

fn request() -> DeviceCreateRequest {
    DeviceCreateRequest {
        name: "sensor1".to_string(),
        device_type_str: "Sensor".to_string(),
        board_type_str: "esp32".to_string(),
        sensor_type: Some("DHT22".to_string()),
        actuator_type: None,
        adopted_status: "ADOPTED".to_string(),
        mac_address: "12:34:56:78:9a:bc".to_string(),
        message: message_request(),
        scale: Some(vec![("temp".to_string(), "C".to_string()), ("hum".to_string(), "%".to_string())]),
    }
}

fn device_row(uuid: u128) -> Device {
    Device {
        id: 4,
        uuid,
        user_id: 2,
        name: "sensor1".to_string(),
        device_type_int: 0,
        device_type_text: "Sensor".to_string(),
        board_type_int: 0,
        board_type_text: "ESP32".to_string(),
        sensor_type: None,
        actuator_type: None,
        device_condition_int: 0,
        device_condition_text: "Adopted".to_string(),
        mac_address: "12:34:56:78:9a:bc".to_string(),
        created_at: Some(1),
        updated_at: None,
        deleted_at: None,
    }
}

fn broker() -> BrokerResponse {
    BrokerResponse {
        uuid: 8,
        host: "mqtt.example".to_string(),
        port: 1883,
        client_id: "c".to_string(),
        version: 3,
        version_text: "3".to_string(),
        keep_alive: 1,
        clean_session: false,
        last_will_topic: None,
        last_will_message: None,
        last_will_qos: None,
        last_will_retain: None,
        connected: true,
        created_at: None,
        updated_at: None,
        deleted_at: None,
    }
}

#[test]
fn boards_are_named_in_any_case() {
    assert_eq!(BoardType::from_request("ESP32").unwrap(), BoardType::ESP32);
    assert_eq!(BoardType::from_request("esp32").unwrap(), BoardType::ESP32);
    assert_eq!(BoardType::from_request("RaspberryPi").unwrap(), BoardType::RaspberryPi);
    assert_eq!(BoardType::from_request("RASPBERRYPI").unwrap(), BoardType::RaspberryPi);
    match BoardType::from_request("Arduino") {
        Err(BoarderError::InvalidBoardType(m)) => assert_eq!(m, "Invalid boarder: Arduino"),
        other => panic!("unexpected {:?}", other),
    }
    assert!(BoardType::from_request("").is_err());
    assert!(BoardType::from_lowercase("ESP32", "x").is_err());
    assert_eq!(BoardType::ESP32.as_int(), 0);
    assert_eq!(BoardType::RaspberryPi.as_int(), 1);
    assert_eq!(BoardType::ESP32.to_text(), "ESP32");
    assert_eq!(BoardType::RaspberryPi.to_text(), "RaspberryPi");
    let e = BoarderError::InvalidBoardType("Invalid boarder: a\"b".to_string());
    assert_eq!(e.debug_text(), "InvalidBoardType(\"Invalid boarder: a\\\"b\")");
}

#[test]
fn device_types_are_named_in_any_case() {
    assert_eq!(DeviceType::parse("sensor").unwrap(), DeviceType::Sensor);
    assert_eq!(DeviceType::parse("ACTUATOR").unwrap(), DeviceType::Actuator);
    assert_eq!(DeviceType::parse("robot"), Err("Invalid device type"));
    assert_eq!("Sensor".parse::<DeviceType>().unwrap(), DeviceType::Sensor);
    assert_eq!(DeviceType::Sensor.as_int(), 0);
    assert_eq!(DeviceType::Actuator.as_int(), 1);
    assert_eq!(DeviceType::Sensor.to_text(), "Sensor");
    assert_eq!(DeviceType::Actuator.to_text(), "Actuator");
}

#[test]
fn conditions_are_named_in_any_case() {
    assert_eq!(DeviceCondition::parse("Adopted").unwrap(), DeviceCondition::Adopted);
    assert_eq!(DeviceCondition::parse("NOT_ADOPTED").unwrap(), DeviceCondition::NotAdopted);
    assert_eq!(DeviceCondition::parse("blocked").unwrap(), DeviceCondition::Blocked);
    assert_eq!("blocKed".parse::<DeviceCondition>().unwrap(), DeviceCondition::Blocked);
    assert_eq!(bad_request(DeviceCondition::parse("NotAdopted")), "Invalid device condition: NotAdopted");
    assert_eq!(DeviceCondition::Adopted.as_int(), 0);
    assert_eq!(DeviceCondition::NotAdopted.as_int(), 1);
    assert_eq!(DeviceCondition::Blocked.as_int(), 2);
    assert_eq!(DeviceCondition::Adopted.to_text(), "Adopted");
    assert_eq!(DeviceCondition::NotAdopted.to_text(), "NotAdopted");
    assert_eq!(DeviceCondition::Blocked.to_text(), "Blocked");
}

#[test]
fn a_message_takes_over_what_the_request_gives() {
    let m = DeviceMessageCreate::new(&message_request(), &no_objection()).unwrap();
    assert_eq!(m.get_payload(), "on");
    assert_eq!(m.get_qos(), 1);
    assert!(m.get_retained());
    assert_eq!(m.get_publisher(), Some(false));
    assert_eq!(m.get_subscriber(), Some(true));
    assert_eq!(m.get_command_start(), Some(1));
    assert_eq!(m.get_command_end(), None);
    assert_eq!(m.get_command_last(), None);
    assert_eq!(m.get_command_last_time(), None);
    assert_eq!((m.get_uuid() >> 76) & 0xf, 4);
    let fixed = DeviceMessageCreate::with_uuid(42, &message_request(), &no_objection()).unwrap();
    assert_eq!(fixed.get_uuid(), 42);
}

#[test]
fn a_message_that_the_transport_objects_to_is_refused() {
    let both = MessageChecks {
        payload_error: Some("too large".to_string()),
        qos_error: Some("bad qos".to_string()),
    };
    assert_eq!(bad_request(DeviceMessageCreate::new(&message_request(), &both)), "too large");
    let qos = MessageChecks { payload_error: None, qos_error: Some("bad qos".to_string()) };
    assert_eq!(bad_request(DeviceMessageCreate::new(&message_request(), &qos)), "bad qos");
}

#[test]
fn scales_keep_their_order_and_get_identifiers() {
    let s = DeviceScaleCreate::from_request(&request());
    assert_eq!(s.len(), 2);
    assert_eq!((s[0].metric.as_str(), s[0].unit.as_str()), ("temp", "C"));
    assert_eq!((s[1].metric.as_str(), s[1].unit.as_str()), ("hum", "%"));
    assert_ne!(s[0].uuid, s[1].uuid);
    let mut none = request();
    none.scale = None;
    assert!(DeviceScaleCreate::from_request(&none).is_empty());
    assert_eq!(request().get_device_create_scale().as_ref().unwrap().len(), 2);
}

#[test]
fn a_device_is_put_together_from_its_request() {
    let d = DeviceCreate::new(&request(), 9, &no_objection()).unwrap();
    assert_eq!(d.get_user_id(), 9);
    assert_eq!(d.get_name(), "sensor1");
    assert_eq!(d.get_device_type_int(), 0);
    assert_eq!(d.get_device_type_text(), "Sensor");
    assert_eq!(d.get_border_type_int(), 0);
    assert_eq!(d.get_border_type_text(), "ESP32");
    assert_eq!(d.get_sensor_type(), Some("DHT22".to_string()));
    assert_eq!(d.get_actuator_type(), None);
    assert_eq!(d.get_device_condition_int(), 0);
    assert_eq!(d.get_device_condition_text(), "Adopted");
    assert_eq!(d.get_mac_address(), "12:34:56:78:9a:bc");
    assert_eq!(d.message.payload, "on");
    assert_eq!(d.scale.as_ref().unwrap().len(), 2);
    assert_eq!((d.get_uuid() >> 76) & 0xf, 4);
    assert_ne!(d.get_uuid(), d.message.uuid);
    let mut r = request();
    r.scale = None;
    r.device_type_str = "actuator".to_string();
    r.board_type_str = "RaspberryPi".to_string();
    r.sensor_type = None;
    r.actuator_type = Some("relay".to_string());
    let d = DeviceCreate::new(&r, 1, &no_objection()).unwrap();
    assert!(d.scale.is_none());
    assert_eq!(d.device_type_int, 1);
    assert_eq!(d.device_type_text, "Actuator");
    assert_eq!(d.board_type_int, 1);
    assert_eq!(d.board_type_text, "RaspberryPi");
}

#[test]
fn a_device_request_is_checked_in_a_fixed_order() {
    let checks = MessageChecks { payload_error: Some("too large".to_string()), qos_error: None };
    let mut r = request();
    r.mac_address = "nonsense".to_string();
    r.device_type_str = "robot".to_string();
    r.board_type_str = "Arduino".to_string();
    r.adopted_status = "lost".to_string();
    r.sensor_type = None;
    assert_eq!(
        bad_request(DeviceCreate::new(&r, 1, &checks)),
        "Invalid mac_address: Invalid length; expecting 11 to 17 chars, found 8"
    );
    r.mac_address = "12:34:56:78:9a:bc".to_string();
    assert_eq!(bad_request(DeviceCreate::new(&r, 1, &checks)), "Invalid device type: robot");
    r.device_type_str = "sensor".to_string();
    assert_eq!(
        bad_request(DeviceCreate::new(&r, 1, &checks)),
        "InvalidBoardType(\"Invalid boarder: Arduino\")"
    );
    r.board_type_str = "esp32".to_string();
    assert_eq!(bad_request(DeviceCreate::new(&r, 1, &checks)), "Invalid device condition: lost");
    r.adopted_status = "blocked".to_string();
    assert_eq!(bad_request(DeviceCreate::new(&r, 1, &checks)), "Device condition must be 'adopted'");
    r.adopted_status = "adopted".to_string();
    assert_eq!(
        bad_request(DeviceCreate::new(&r, 1, &checks)),
        "Sensor or Actuator type must be specified"
    );
    r.sensor_type = Some("a".to_string());
    r.actuator_type = Some("b".to_string());
    assert_eq!(
        bad_request(DeviceCreate::new(&r, 1, &checks)),
        "Sensor or Actuator type must be specified"
    );
    r.actuator_type = None;
    assert_eq!(bad_request(DeviceCreate::new(&r, 1, &checks)), "too large");
    assert!(DeviceCreate::new(&r, 1, &no_objection()).is_ok());
}

#[test]
fn from_parts_is_ruled_by_what_it_is_given() {
    let r = request();
    let message = DeviceMessageCreate::with_uuid(2, &r.message, &no_objection());
    let d = DeviceCreate::from_parts(
        &r,
        3,
        1,
        None,
        Some(DeviceType::Actuator),
        Ok(BoardType::RaspberryPi),
        Ok(DeviceCondition::Adopted),
        message,
        Vec::new(),
    )
    .unwrap();
    assert_eq!(d.uuid, 1);
    assert_eq!(d.message.uuid, 2);
    assert_eq!(d.device_type_int, 1);
    assert_eq!(d.board_type_text, "RaspberryPi");
    assert_eq!(d.scale.unwrap().len(), 0);
    let refused = DeviceCreate::from_parts(
        &r,
        3,
        1,
        Some("odd".to_string()),
        None,
        Err("board".to_string()),
        Err(AppError::bad_request("condition")),
        Err(AppError::bad_request("message")),
        Vec::new(),
    );
    assert_eq!(bad_request(refused), "Invalid mac_address: odd");
    let refused = DeviceCreate::from_parts(
        &r,
        3,
        1,
        None,
        Some(DeviceType::Sensor),
        Err("board".to_string()),
        Err(AppError::bad_request("condition")),
        Err(AppError::bad_request("message")),
        Vec::new(),
    );
    assert_eq!(bad_request(refused), "board");
    let refused = DeviceCreate::from_parts(
        &r,
        3,
        1,
        None,
        Some(DeviceType::Sensor),
        Ok(BoardType::ESP32),
        Ok(DeviceCondition::NotAdopted),
        Err(AppError::bad_request("message")),
        Vec::new(),
    );
    assert_eq!(bad_request(refused), "Device condition must be 'adopted'");
}

#[test]
fn an_adoption_request_is_checked() {
    let mut a = DeviceAdoptionRequest {
        board_type: "Esp32".to_string(),
        mac_address: "12-34-56-78-9A-BC".to_string(),
        device_type: "sensor".to_string(),
        sensor_type: String::new(),
        actuator_type: String::new(),
        adopted_status: 0,
        device_scale: Vec::new(),
        device_name: "n".to_string(),
    };
    assert!(a.validate().is_ok());
    a.adopted_status = 1;
    assert_eq!(bad_request(a.validate()), "Invalid mac_address");
    a.adopted_status = 2;
    a.mac_address = "12-34".to_string();
    assert_eq!(bad_request(a.validate()), "Invalid mac_address");
    a.board_type = "abacus".to_string();
    assert_eq!(bad_request(a.validate()), "Invalid board type");
    assert!(a.validate_address(true).is_ok());
    assert_eq!(bad_request(a.validate_address(false)), "Invalid mac_address");
    a.adopted_status = 1;
    assert_eq!(bad_request(a.validate_address(true)), "Invalid mac_address");
}

#[test]
fn an_adoption_with_too_many_bytes_in_its_address_is_refused() {
    let mut a = DeviceAdoptionRequest {
        board_type: "esp32".to_string(),
        mac_address: "1234567890ABCD".to_string(),
        device_type: "sensor".to_string(),
        sensor_type: String::new(),
        actuator_type: String::new(),
        adopted_status: 0,
        device_scale: Vec::new(),
        device_name: "n".to_string(),
    };
    assert_eq!(bad_request(a.validate()), "Invalid mac_address");
    a.mac_address = "01234567890ABCDEF".to_string();
    assert_eq!(bad_request(a.validate()), "Invalid mac_address");
    a.board_type = "abacus".to_string();
    assert_eq!(bad_request(a.validate()), "Invalid board type");
    a.board_type = "esp32".to_string();
    a.mac_address = "12:34:56:78:9a:bc".to_string();
    assert!(a.validate().is_ok());
}

#[test]
fn what_is_wrong_with_a_hardware_address() {
    assert_eq!(mac_address_error("12:34:56:78:9a:bc"), None);
    assert_eq!(mac_address_error("12-34-56-78-9A-BC"), None);
    assert_eq!(mac_address_error("1234.5678.9abc"), None);
    assert_eq!(
        mac_address_error(""),
        Some("Invalid length; expecting 11 to 17 chars, found 0".to_string())
    );
    assert_eq!(
        mac_address_error("12:34:56:78:9a:bc:de"),
        Some("Invalid length; expecting 11 to 17 chars, found 20".to_string())
    );
    assert_eq!(
        mac_address_error("0x00:01:02:03:"),
        Some("Invalid byte count; Matched `4` bytes ([0, 1, 2, 3])".to_string())
    );
    assert_eq!(
        mac_address_error("0x00:01:02:03:04:"),
        Some("Invalid byte count; Matched `5` bytes ([0, 1, 2, 3, 4])".to_string())
    );
    assert_eq!(
        mac_address_error("1234567890ABCD"),
        Some("Invalid byte count; Matched `7` bytes ([18, 52, 86, 120, 144, 171])".to_string())
    );
    assert_eq!(
        mac_address_error("1234567890ABCDEF"),
        Some("Invalid byte count; Matched `8` bytes ([18, 52, 86, 120, 144, 171])".to_string())
    );
    assert_eq!(
        mac_address_error("01234567890ABCDEF"),
        Some("Invalid byte count; Matched `9` bytes ([1, 35, 69, 103, 137, 10])".to_string())
    );
    assert_eq!(
        mac_address_error("zzzzzzzzzzzz"),
        Some("Invalid byte count; Matched `0` bytes ([])".to_string())
    );
}

#[test]
fn the_words_of_an_objection_to_an_address() {
    assert_eq!(
        MacAddressError::InvalidLength(3).to_text(),
        "Invalid length; expecting 11 to 17 chars, found 3"
    );
    assert_eq!(
        MacAddressError::InvalidByteCount(2, [255, 0, 7, 8, 9, 10]).to_text(),
        "Invalid byte count; Matched `2` bytes ([255, 0])"
    );
    assert_eq!(
        MacAddressError::InvalidByteCount(6, [1, 2, 3, 4, 5, 6]).to_text(),
        "Invalid byte count; Matched `6` bytes ([1, 2, 3, 4, 5, 6])"
    );
    assert_eq!(
        MacAddressError::InvalidByteCount(usize::MAX, [1, 2, 3, 4, 5, 6]).to_text(),
        format!("Invalid byte count; Matched `{}` bytes ([1, 2, 3, 4, 5, 6])", usize::MAX)
    );
}

#[test]
fn a_device_with_too_many_bytes_in_its_address_is_refused() {
    let mut r = request();
    r.mac_address = "1234567890ABCD".to_string();
    assert_eq!(
        bad_request(DeviceCreate::new(&r, 1, &no_objection())),
        "Invalid mac_address: Invalid byte count; Matched `7` bytes ([18, 52, 86, 120, 144, 171])"
    );
}

#[test]
fn a_hardware_address_is_registered_once() {
    assert!(device_unregistered(&None).is_ok());
    match device_unregistered(&Some(device_row(1))) {
        Err(AppError::ConstraintViolation(e)) => {
            assert_eq!(e.api_msg_error, "Device already registered");
            assert_eq!(e.log_msg_error, "Device already registered: 12:34:56:78:9a:bc");
        }
        other => panic!("unexpected {:?}", other),
    }
    assert!(device_adoption(&None).is_ok());
    assert_eq!(bad_request(device_adoption(&Some(device_row(1)))), "Device already registered");
}

#[test]
fn a_device_needs_a_connected_broker() {
    assert_eq!(connected_broker(Some(broker())).unwrap().uuid, 8);
    match connected_broker(None) {
        Err(AppError::NotFound(e)) => {
            assert_eq!(
                e.api_msg_error,
                "Broker not connected. Connect to an MQTT broker before registering a device"
            );
        }
        other => panic!("unexpected {:?}", other),
    }
    assert_eq!(broker_url(&broker()), "mqtt.example:1883");
    let mut odd = broker();
    odd.port = -7;
    assert_eq!(broker_url(&odd), "mqtt.example:-7");
    odd.port = 0;
    assert_eq!(broker_url(&odd), "mqtt.example:0");
    odd.port = i32::MIN;
    assert_eq!(broker_url(&odd), "mqtt.example:-2147483648");
}

#[test]
fn the_topic_of_a_new_device() {
    let mut d = DeviceCreate::new(&request(), 9, &no_objection()).unwrap();
    d.uuid = 0x22222222_2222_2222_2222_222222222222;
    let topic = device_topic(0x11111111_1111_1111_1111_111111111111, &d);
    assert_eq!(
        topic,
        "11111111-1111-1111-1111-111111111111/22222222-2222-2222-2222-222222222222/sensor1"
    );
    assert!(device_topic_checked(None).is_ok());
    assert_eq!(bad_request(device_topic_checked(Some("wildcard".to_string()))), "wildcard");
}

#[test]
fn a_new_sensor_is_subscribed_on_the_connected_broker() {
    let mut m = BrokerManager::new();
    m.insert(8, BrokerHandle::new(1));
    let sensor = DeviceCreate::new(&request(), 9, &no_objection()).unwrap();
    assert!(matches!(
        device_subscribe(&sensor, 8, "u/d/n".to_string(), &mut m),
        Ok(Some(Delivery::Queued))
    ));
    let c = m.next_command(&8).unwrap();
    assert!(matches!(c, BrokerCommand::Subscribe { topic, qos: 1 } if topic == "u/d/n"));
    let mut r = request();
    r.device_type_str = "actuator".to_string();
    let actuator = DeviceCreate::new(&r, 9, &no_objection()).unwrap();
    assert!(matches!(device_subscribe(&actuator, 8, "u/d/n".to_string(), &mut m), Ok(None)));
    assert!(m.next_command(&8).is_none());
    assert!(matches!(device_subscribe(&actuator, 99, "u/d/n".to_string(), &mut m), Ok(None)));
    assert!(matches!(
        device_subscribe(&sensor, 99, "u/d/n".to_string(), &mut m),
        Err(AppError::NotFound(_))
    ));
}

#[test]
fn a_new_sensor_waits_for_room_in_a_full_queue() {
    let mut m = BrokerManager::new();
    m.insert(8, BrokerHandle::new(1));
    let sensor = DeviceCreate::new(&request(), 9, &no_objection()).unwrap();
    for _ in 0..32 {
        device_subscribe(&sensor, 8, "t".to_string(), &mut m).unwrap();
    }
    match device_subscribe(&sensor, 8, "u/d/n".to_string(), &mut m) {
        Ok(Some(Delivery::WaitForRoom { topic, qos })) => {
            assert_eq!(topic, "u/d/n");
            assert_eq!(qos, 1);
        }
        other => panic!("unexpected {:?}", other),
    }
    assert_eq!(m.get(&8).unwrap().commands.len(), 32);
}

#[test]
fn the_answer_to_a_registration() {
    let message = DeviceMessage {
        id: 1,
        uuid: 11,
        device_id: 4,
        topic: "t".to_string(),
        payload: "p".to_string(),
        qos: 2,
        retained: true,
        publisher: Some(false),
        subscriber: Some(true),
        command_start: Some(1),
        command_end: Some(2),
        command_last: None,
        command_last_time: Some(5),
        created_at: Some(6),
        updated_at: None,
        deleted_at: None,
    };
    let scale = |uuid: u128, metric: &str| DeviceScale {
        id: 1,
        uuid,
        device_id: 4,
        metric: metric.to_string(),
        unit: "u".to_string(),
        created_at: Some(7),
        updated_at: None,
        deleted_at: None,
    };
    let r = device_create_response(
        device_row(10),
        message,
        vec![scale(1, "a"), scale(2, "b"), scale(3, "c")],
        77,
        "h:1".to_string(),
    );
    assert_eq!(r.uuid, 10);
    assert_eq!(r.user_uuid, 77);
    assert_eq!(r.name, "sensor1");
    assert_eq!(r.mac_address, "12:34:56:78:9a:bc");
    assert_eq!(r.broker_url, "h:1");
    assert_eq!(r.message.uuid, 11);
    assert_eq!(r.message.device_uuid, 10);
    assert_eq!(r.message.topic, "t");
    assert_eq!(r.message.payload, "p");
    assert_eq!(r.message.command_last_time, Some(5));
    let metrics: Vec<&str> = r.scale.iter().map(|s| s.metric.as_str()).collect();
    assert_eq!(metrics, vec!["a", "b", "c"]);
    assert_eq!(r.scale[2].uuid, 3);
    assert_eq!(r.scale[0].created_at, Some(7));
}

#[test]
fn the_readings_of_a_device_in_a_list() {
    let owned = |text: &str| DeviceMessagesOwned {
        device_uuid: text.to_string(),
        messages: LatestValues::new(),
    };
    let list = vec![
        owned("00000000-0000-0000-0000-000000000001"),
        owned("00000000000000000000000000000002"),
        owned("not an identifier"),
        owned("00000000-0000-0000-0000-000000000001"),
        owned("00000000-0000-0000-0000-00000000000A"),
    ];
    assert_eq!(find_device_messages(&list, 1), Some(3));
    assert_eq!(find_device_messages(&list, 2), Some(1));
    assert_eq!(find_device_messages(&list, 10), Some(4));
    assert_eq!(find_device_messages(&list, 3), None);
    assert_eq!(find_device_messages(&Vec::new(), 1), None);
    assert_eq!(get_device_count_total_owned_user(0, Some(9)), 0);
    assert_eq!(get_device_count_total_owned_user(2, Some(9)), 9);
    assert_eq!(get_device_count_total_owned_user(2, None), 0);
}
