use rasta::protocol::{decode_frame, encode_message, InboundMessage, Message, MethodResult};
use rasta::wire::WireValue;

fn to_json(v: &WireValue) -> serde_json::Value {
    match v {
        WireValue::Null => serde_json::Value::Null,
        WireValue::Bool(b) => serde_json::Value::Bool(*b),
        WireValue::Int(n) => serde_json::Value::Number(serde_json::Number::from(*n)),
        WireValue::Str(s) => serde_json::Value::String(s.clone()),
        WireValue::Arr(items) => serde_json::Value::Array(items.iter().map(to_json).collect()),
        WireValue::Obj(members) => serde_json::Value::Object(
            members.iter().map(|(k, v)| (k.clone(), to_json(v))).collect(),
        ),
    }
}

fn from_json(v: serde_json::Value) -> WireValue {
    match v {
        serde_json::Value::Null => WireValue::Null,
        serde_json::Value::Bool(b) => WireValue::Bool(b),
        serde_json::Value::Number(n) => WireValue::Int(n.as_i64().expect("integral number")),
        serde_json::Value::String(s) => WireValue::Str(s),
        serde_json::Value::Array(items) => {
            WireValue::Arr(items.into_iter().map(from_json).collect())
        }
        serde_json::Value::Object(members) => {
            WireValue::Obj(members.into_iter().map(|(k, v)| (k, from_json(v))).collect())
        }
    }
}

#[test]
fn test_method_format() {
    fn check_message(mr: MethodResult, expected: MethodResult) {
        let frame = encode_message(Message::Result(mr));
        let text = serde_json::to_string(&to_json(&frame)).unwrap();
        let back = from_json(serde_json::from_str::<serde_json::Value>(&text).unwrap());
        match decode_frame(back) {
            Some(InboundMessage::Result(got)) => assert_eq!(got, expected),
            other => panic!("frame did not decode to a method result: {:?}", other),
        }
    }

    check_message(
        MethodResult::Result {
            id: "lolilol".to_string(),
            result: WireValue::Str("burp".to_string()),
        },
        MethodResult::Result {
            id: "lolilol".to_string(),
            result: WireValue::Str("burp".to_string()),
        },
    );

    check_message(
        MethodResult::Error {
            id: "lulz".to_string(),
            error: WireValue::Bool(true),
        },
        MethodResult::Error {
            id: "lulz".to_string(),
            error: WireValue::Bool(true),
        },
    );
}

#[test]
fn round_trip_without_text_framing() {
    let mr = MethodResult::Result {
        id: "7".to_string(),
        result: WireValue::Arr(vec![WireValue::Int(1), WireValue::Null]),
    };
    let frame = encode_message(Message::Result(mr));
    let expected = MethodResult::Result {
        id: "7".to_string(),
        result: WireValue::Arr(vec![WireValue::Int(1), WireValue::Null]),
    };
    assert_eq!(decode_frame(frame), Some(InboundMessage::Result(expected)));
}

#[test]
fn ping_frame_encodes_to_tagged_object() {
    let frame = encode_message(Message::Ping);
    let text = serde_json::to_string(&to_json(&frame)).unwrap();
    assert_eq!(text, r#"{"msg":"ping"}"#);
    let pong = encode_message(Message::Pong);
    assert_eq!(serde_json::to_string(&to_json(&pong)).unwrap(), r#"{"msg":"pong"}"#);
}

#[test]
fn method_frame_has_documented_shape() {
    let frame = encode_message(Message::Method {
        id: "0".to_string(),
        method: "rooms/get".to_string(),
        params: vec![],
    });
    let text = serde_json::to_string(&to_json(&frame)).unwrap();
    assert_eq!(text, r#"{"id":"0","method":"rooms/get","msg":"method","params":[]}"#);
}

#[test]
fn sub_frame_has_documented_shape() {
    let frame = encode_message(Message::Sub {
        id: "ROOMID".to_string(),
        name: "stream-room-messages".to_string(),
        params: vec![
            WireValue::Str("ROOMID".to_string()),
            WireValue::Bool(false),
        ],
    });
    let text = serde_json::to_string(&to_json(&frame)).unwrap();
    assert_eq!(
        text,
        r#"{"id":"ROOMID","msg":"sub","name":"stream-room-messages","params":["ROOMID",false]}"#
    );
}

#[test]
fn unknown_tag_does_not_decode() {
    let frame = from_json(
        serde_json::from_str(r#"{"msg":"updated","methods":["1"]}"#).unwrap(),
    );
    assert_eq!(decode_frame(frame), None);
    let untagged = from_json(serde_json::from_str(r#"{"x":1}"#).unwrap());
    assert_eq!(decode_frame(untagged), None);
}

#[test]
fn version_ack_and_connected_decode() {
    let ack = from_json(serde_json::from_str(r#"{"server_id":"0"}"#).unwrap());
    assert_eq!(decode_frame(ack), Some(InboundMessage::VersionAck));
    let connected =
        from_json(serde_json::from_str(r#"{"msg":"connected","session":"abc"}"#).unwrap());
    assert_eq!(
        decode_frame(connected),
        Some(InboundMessage::Connected { session: "abc".to_string() })
    );
}

#[test]
fn event_frame_decodes_with_collection_name() {
    let text = r#"{"msg":"changed","collection":"stream-room-messages","id":"id","fields":{}}"#;
    let frame = from_json(serde_json::from_str(text).unwrap());
    match decode_frame(frame) {
        Some(InboundMessage::Event { name, payload }) => {
            assert_eq!(name, "stream-room-messages");
            match payload {
                WireValue::Obj(_) => {}
                other => panic!("payload lost its shape: {:?}", other),
            }
        }
        other => panic!("event frame did not decode: {:?}", other),
    }
}

#[test]
fn object_lookup_takes_the_first_member() {
    let v = WireValue::Obj(vec![
        ("k".to_string(), WireValue::Int(1)),
        ("k".to_string(), WireValue::Int(2)),
    ]);
    assert_eq!(v.get_field("k"), Some(&WireValue::Int(1)));
    assert_eq!(v.get_field("missing"), None);
    assert_eq!(WireValue::Null.get_field("k"), None);
}
