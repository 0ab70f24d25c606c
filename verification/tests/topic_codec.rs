use iot_fleet::error_app::AppError;
use iot_fleet::topic::{decoded_topic, device_compose_topic, device_decompose_topic, split_topic};

const OWNER: u128 = 0x11111111_1111_1111_1111_111111111111;
const DEVICE: u128 = 0x22222222_2222_2222_2222_222222222222;
const OWNER_TEXT: &str = "11111111-1111-1111-1111-111111111111";
const DEVICE_TEXT: &str = "22222222-2222-2222-2222-222222222222";

fn bad_request(r: Result<iot_fleet::topic::DecomposeTopic, AppError>) -> String {
    match r {
        Err(AppError::BadRequest(m)) => m,
        other => panic!("expected a bad request, got {:?}", other),
    }
}

#[test]
fn compose_writes_hyphenated_identifiers() {
    let topic = device_compose_topic(OWNER, DEVICE, "sensor1");
    assert_eq!(topic, format!("{}/{}/{}", OWNER_TEXT, DEVICE_TEXT, "sensor1"));
}

#[test]
fn compose_writes_lower_case_hex_digits() {
    let topic = device_compose_topic(0xA1A2A3A4_B1B2_C1C2_D1D2_D3D4D5D6D7D8, 0, "x");
    assert_eq!(
        topic,
        "a1a2a3a4-b1b2-c1c2-d1d2-d3d4d5d6d7d8/00000000-0000-0000-0000-000000000000/x"
    );
}

#[test]
fn decompose_inverts_compose() {
    let pairs: [(u128, u128, &str); 4] = [
        (OWNER, DEVICE, "sensor1"),
        (0, u128::MAX, ""),
        (0x0123456789abcdef0123456789abcdef, 1, "living room"),
        (7, 7, "température"),
    ];
    for (owner, device, name) in pairs {
        let topic = device_compose_topic(owner, device, name);
        let back = device_decompose_topic(&topic).expect("a composed topic decodes");
        assert_eq!(back.user_uuid, owner);
        assert_eq!(back.device_uuid, device);
        assert_eq!(back.device_name, name);
    }
}

#[test]
fn decompose_reads_the_three_parts() {
    let topic = format!("{}/{}/sensor1", OWNER_TEXT, DEVICE_TEXT);
    let t = device_decompose_topic(&topic).unwrap();
    assert_eq!(t.user_uuid, OWNER);
    assert_eq!(t.device_uuid, DEVICE);
    assert_eq!(t.device_name, "sensor1");
}

#[test]
fn decompose_accepts_upper_case_and_plain_spellings() {
    let topic = "A1A2A3A4-B1B2-C1C2-D1D2-D3D4D5D6D7D8/a1a2a3a4b1b2c1c2d1d2d3d4d5d6d7d8/n";
    let t = device_decompose_topic(topic).unwrap();
    assert_eq!(t.user_uuid, 0xa1a2a3a4b1b2c1c2d1d2d3d4d5d6d7d8);
    assert_eq!(t.device_uuid, 0xa1a2a3a4b1b2c1c2d1d2d3d4d5d6d7d8);
}

#[test]
fn decompose_refuses_other_segment_counts() {
    let four = format!("{}/{}/a/b", OWNER_TEXT, DEVICE_TEXT);
    let two = format!("{}/{}", OWNER_TEXT, DEVICE_TEXT);
    let trailing = format!("{}/{}/name/", OWNER_TEXT, DEVICE_TEXT);
    for topic in ["", "a", "a/b", "a/b/c/d", "///", four.as_str(), two.as_str(), trailing.as_str()] {
        assert_eq!(bad_request(device_decompose_topic(topic)), "Invalid topic", "topic {:?}", topic);
    }
}

#[test]
fn decompose_refuses_segments_that_are_no_identifiers() {
    let bad_owner = format!("owner/{}/name", DEVICE_TEXT);
    assert_eq!(bad_request(device_decompose_topic(&bad_owner)), "Invalid user_uuid");
    let bad_device = format!("{}/device/name", OWNER_TEXT);
    assert_eq!(bad_request(device_decompose_topic(&bad_device)), "Invalid device_uuid");
    assert_eq!(bad_request(device_decompose_topic("a/b/c")), "Invalid user_uuid");
    assert_eq!(bad_request(device_decompose_topic("//")), "Invalid user_uuid");
}

#[test]
fn a_name_with_a_slash_does_not_round_trip() {
    let topic = device_compose_topic(OWNER, DEVICE, "a/b");
    assert_eq!(bad_request(device_decompose_topic(&topic)), "Invalid topic");
}

#[test]
fn split_gives_exactly_three_segments() {
    assert_eq!(
        split_topic("a/b/c"),
        Some(("a".to_string(), "b".to_string(), "c".to_string()))
    );
    assert_eq!(split_topic("//"), Some((String::new(), String::new(), String::new())));
    assert_eq!(
        split_topic("é/ü/ñandú"),
        Some(("é".to_string(), "ü".to_string(), "ñandú".to_string()))
    );
    assert_eq!(split_topic("a/b"), None);
    assert_eq!(split_topic("a/b/c/d"), None);
    assert_eq!(split_topic(""), None);
}

#[test]
fn decoded_topic_looks_at_the_owner_first() {
    assert_eq!(bad_request(decoded_topic(None, None, "n".to_string())), "Invalid user_uuid");
    assert_eq!(bad_request(decoded_topic(None, Some(2), "n".to_string())), "Invalid user_uuid");
    assert_eq!(bad_request(decoded_topic(Some(1), None, "n".to_string())), "Invalid device_uuid");
    let t = decoded_topic(Some(1), Some(2), "n".to_string()).unwrap();
    assert_eq!((t.user_uuid, t.device_uuid, t.device_name.as_str()), (1, 2, "n"));
}
