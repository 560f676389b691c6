use for_mqtt::data::common::{json_payload, PayloadError, PayloadTy, PublishInput, QoS};
use for_mqtt::mqtt::data::MqttPublicInput;

fn encode(ty: PayloadTy, msg: &str) -> Result<(Vec<u8>, String), PayloadError> {
    ty.to_bytes(&msg.to_string()).map(|(b, s)| (b.to_vec(), s))
}

#[test]
fn text_payload_is_utf8_of_message() {
    let (bytes, shown) = encode(PayloadTy::Text, "héllo").unwrap();
    assert_eq!(bytes, "héllo".as_bytes().to_vec());
    assert_eq!(shown, "héllo");
}

#[test]
fn empty_text_payload() {
    let (bytes, shown) = encode(PayloadTy::Text, "").unwrap();
    assert!(bytes.is_empty());
    assert_eq!(shown, "");
}

#[test]
fn json_payload_is_shown_pretty() {
    let (bytes, shown) = encode(PayloadTy::Json, "{\"a\":1}").unwrap();
    assert_eq!(bytes, b"{\"a\":1}".to_vec());
    assert_eq!(shown, "{\n  \"a\": 1\n}");
}

#[test]
fn invalid_json_payload_fails() {
    match encode(PayloadTy::Json, "{a:") {
        Err(PayloadError::InvalidJson(msg)) => assert!(!msg.is_empty()),
        other => panic!("expected a JSON error, got {:?}", other),
    }
}

#[test]
fn hex_payload_pairs_digits() {
    let (bytes, shown) = encode(PayloadTy::Hex, "0a1B").unwrap();
    assert_eq!(bytes, vec![0x0a, 0x1b]);
    assert_eq!(shown, "0a 1B ");
}

#[test]
fn hex_payload_skips_other_characters() {
    let (bytes, shown) = encode(PayloadTy::Hex, "ff-0 0,x").unwrap();
    assert_eq!(bytes, vec![0xff, 0x00]);
    assert_eq!(shown, "ff 00 ");
    let (bytes, shown) = encode(PayloadTy::Hex, "zz").unwrap();
    assert!(bytes.is_empty());
    assert_eq!(shown, "");
}

#[test]
fn hex_payload_with_odd_digits_fails() {
    assert_eq!(encode(PayloadTy::Hex, "abc"), Err(PayloadError::OddHexDigits));
    assert_eq!(encode(PayloadTy::Hex, "g1"), Err(PayloadError::OddHexDigits));
}

#[test]
fn hex_shown_text_is_stable() {
    let (bytes, shown) = encode(PayloadTy::Hex, "DE:AD:be:ef").unwrap();
    assert_eq!(bytes, vec![0xde, 0xad, 0xbe, 0xef]);
    let (bytes2, shown2) = encode(PayloadTy::Hex, &shown).unwrap();
    assert_eq!(bytes2, bytes);
    assert_eq!(shown2, shown);
}

#[test]
fn publish_input_becomes_mqtt_input() {
    let input = PublishInput {
        broker_id: 3,
        topic: "a/b".to_string(),
        msg: "0102".to_string(),
        qos: QoS::AtLeastOnce,
        retain: true,
        trace_id: 9,
        payload_ty: PayloadTy::Hex,
    };
    let m = MqttPublicInput::try_from(input).unwrap();
    assert_eq!(m.broker_id, 3);
    assert_eq!(m.trace_id, 9);
    assert_eq!(m.topic.as_str(), "a/b");
    assert_eq!(m.msg.to_vec(), vec![1, 2]);
    assert_eq!(m.qos, QoS::AtLeastOnce);
    assert!(m.retain);
}

#[test]
fn publish_input_with_bad_payload_fails() {
    let input = PublishInput {
        broker_id: 3,
        topic: "a/b".to_string(),
        msg: "012".to_string(),
        qos: QoS::AtMostOnce,
        retain: false,
        trace_id: 9,
        payload_ty: PayloadTy::Hex,
    };
    assert!(matches!(MqttPublicInput::try_from(input), Err(PayloadError::OddHexDigits)));
}

#[test]
fn qos_numbers_and_text() {
    assert_eq!(QoS::AtMostOnce.to_u8(), 0);
    assert_eq!(QoS::AtLeastOnce.to_u8(), 1);
    assert_eq!(QoS::ExactlyOnce.to_u8(), 2);
    assert_eq!(QoS::AtMostOnce.to_string(), "0");
    assert_eq!(QoS::AtLeastOnce.to_string(), "1");
    assert_eq!(QoS::ExactlyOnce.to_string(), "2");
    assert_eq!(QoS::default(), QoS::AtMostOnce);
    assert_eq!(PayloadTy::default(), PayloadTy::Text);
}

#[test]
fn json_payload_from_printed_text() {
    let msg = "{\"b\": [1, 2]}".to_string();
    let (bytes, shown) = json_payload(&msg, Ok("printed".to_string())).unwrap();
    assert_eq!(bytes.to_vec(), msg.as_bytes().to_vec());
    assert_eq!(shown, "printed");
    assert_eq!(
        json_payload(&msg, Err("bad".to_string())).map(|(b, s)| (b.to_vec(), s)),
        Err(PayloadError::InvalidJson("bad".to_string()))
    );
}
