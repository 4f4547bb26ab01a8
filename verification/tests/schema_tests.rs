use rasta::schema::{
    presence_name, Presence, Room, RoomEvent, ShortRoom, ShortUser, Spotlight, Timestamp, UserID,
};
use rasta::wire::WireValue;

fn from_json(v: serde_json::Value) -> WireValue {
    match v {
        serde_json::Value::Null => WireValue::Null,
        serde_json::Value::Bool(b) => WireValue::Bool(b),
        serde_json::Value::Number(n) => WireValue::Int(n.as_i64().expect("integral number")),
        serde_json::Value::String(s) => WireValue::Str(s),
        serde_json::Value::Array(items) => {
            WireValue::Arr(items.into_iter().map(from_json).collect())
        }
        serde_json::Value::Object(members) => {
            WireValue::Obj(members.into_iter().map(|(k, v)| (k, from_json(v))).collect())
        }
    }
}

fn parse(text: &str) -> WireValue {
    from_json(serde_json::from_str::<serde_json::Value>(text).unwrap())
}

#[test]
fn serde_presence() {
    let name = serde_json::Value::String(presence_name(Presence::Online).to_string());
    assert_eq!(&serde_json::to_string(&name).unwrap(), "\"online\"");
}

#[test]
fn deserialize_sample_room() {
    let room = Room::from_wire(&parse(
        r#"{"_id":"GENERAL","t":"c","name":"general","usernames":[],"usersCount":36,"default":true,"_updatedAt":{"$date":1618846200120},"lm":{"$date":1618836010099},"lastMessage":{"_id":"hCJtirxRuGAgN5Bom","rid":"GENERAL","msg":"Nice :moneybag:","ts":{"$date":1618836010099},"u":{"_id":"sSKs766qYEiKF8tss","username":"qwerty","name":"qwerty"},"_updatedAt":{"$date":1618836010128},"mentions":[],"channels":[]}}"#,
    ))
    .unwrap();

    assert_eq!(
        room,
        Room::Chat {
            id: "GENERAL".to_string(),
            name: "general".to_string(),
            topic: None,
            muted: vec![],
            lm: None
        }
    );
}

#[test]
fn deserialize_public_message() {
    let source = r#"
    {
        "args": [
          {
            "_id": "BFa2866ehEnpHCmsc",
            "_updatedAt": {
              "$date": 1618995166590
            },
            "channels": [],
            "mentions": [],
            "msg": "tralala pouet",
            "rid": "fjGcXmddo5h8sp85n",
            "ts": {
              "$date": 1618995166553
            },
            "u": {
              "_id": "hza29JX8SbnwqJwwh",
              "name": "syn",
              "username": "syn"
            }
          },
          {
            "roomName": "test",
            "roomParticipant": true,
            "roomType": "c"
          }
        ],
        "eventName": "__my_messages__"
      }
    "#;
    RoomEvent::from_wire(parse(source)).unwrap();
}

#[test]
fn room_event_fields_are_read() {
    let source = r#"{"args":[{"_id":"m1","msg":"hi","rid":"r1","ts":{"$date":5},
        "u":{"_id":"u1","username":"alice","name":"Alice","status":"busy"},
        "attachments":[{"title":"t"}]},
        {"roomParticipant":false,"roomType":"d"}]}"#;
    let event = RoomEvent::from_wire(parse(source)).unwrap();
    let (data, extra) = event.args;
    assert_eq!(data.id.0, "m1");
    assert_eq!(data.msg, "hi");
    assert_eq!(data.rid, "r1");
    assert_eq!(data.ts, Timestamp { millis: Some(5) });
    assert_eq!(data.u.id, UserID("u1".to_string()));
    assert_eq!(data.u.username, "alice");
    assert_eq!(data.u.realname, "Alice");
    assert_eq!(data.u.status, Some(Presence::Busy));
    assert_eq!(data.attachments.len(), 1);
    assert_eq!(data.attachments[0].title.as_deref(), Some("t"));
    assert_eq!(extra.room_name, None);
    assert_eq!(extra.room_participant, false);
    assert_eq!(extra.room_type, 'd');
}

#[test]
fn private_room_requires_its_flag() {
    let ok = Room::from_wire(&parse(
        r#"{"_id":"p1","t":"p","name":"sec","ro":true,"muted":["bob"]}"#,
    ))
    .unwrap();
    assert_eq!(
        ok,
        Room::Private {
            id: "p1".to_string(),
            name: "sec".to_string(),
            topic: None,
            muted: vec!["bob".to_string()],
            lm: None,
            ro: true
        }
    );
    assert_eq!(Room::from_wire(&parse(r#"{"_id":"p1","t":"p","name":"sec"}"#)), None);
}

#[test]
fn unknown_room_kind_does_not_parse() {
    assert_eq!(Room::from_wire(&parse(r#"{"_id":"x","t":"z"}"#)), None);
    assert_eq!(Room::from_wire(&parse(r#"{"t":"c","name":"general"}"#)), None);
}

#[test]
fn direct_and_livechat_rooms_parse() {
    assert_eq!(
        Room::from_wire(&parse(r#"{"_id":"d1","t":"d"}"#)),
        Some(Room::Direct { id: "d1".to_string(), lm: None })
    );
    assert_eq!(
        Room::from_wire(&parse(r#"{"_id":"l1","t":"l"}"#)),
        Some(Room::LiveChat { id: "l1".to_string(), lm: None })
    );
}

#[test]
fn spotlight_reply_parses() {
    let sp = Spotlight::from_wire(&parse(
        r#"{"users":[{"_id":"u1","username":"bob","name":"Bob"}],
            "rooms":[{"_id":"r1","name":"general"},{"_id":"r2","name":"random"}]}"#,
    ))
    .unwrap();
    assert_eq!(sp.users.len(), 1);
    assert_eq!(
        sp.rooms,
        vec![
            ShortRoom { id: "r1".to_string(), name: "general".to_string() },
            ShortRoom { id: "r2".to_string(), name: "random".to_string() },
        ]
    );
}

#[test]
fn short_user_rejects_unknown_status() {
    assert_eq!(
        ShortUser::from_wire(&parse(
            r#"{"_id":"u1","username":"bob","name":"Bob","status":"gone"}"#
        )),
        None
    );
}

#[test]
fn timestamp_freshness_moves_forward_only() {
    let mut room = Room::Direct { id: "d1".to_string(), lm: None };
    assert!(room.is_timestamp_fresh(Timestamp { millis: Some(10) }));
    assert!(room.is_timestamp_fresh(Timestamp { millis: Some(10) }));
    assert!(room.is_timestamp_fresh(Timestamp { millis: Some(11) }));
    assert!(!room.is_timestamp_fresh(Timestamp { millis: Some(10) }));
    assert_eq!(
        room,
        Room::Direct { id: "d1".to_string(), lm: Some(Timestamp { millis: Some(11) }) }
    );
}

#[test]
fn message_id_is_sixteen_alphanumerics() {
    let id = rasta::schema::MessageID::new();
    assert_eq!(id.0.len(), 16);
    assert!(id.0.chars().all(|c| c.is_ascii_alphanumeric()));
    let other = rasta::schema::MessageID::new();
    assert_eq!(other.0.len(), 16);
}

#[test]
fn user_id_compares_with_text() {
    let id = UserID("abc".to_string());
    assert!(id.eq_str("abc"));
    assert!(!id.eq_str("abd"));
}

#[test]
fn timestamp_needs_a_nonnegative_date() {
    assert_eq!(
        Timestamp::from_wire(&parse(r#"{"$date":42}"#)),
        Some(Timestamp { millis: Some(42) })
    );
    assert_eq!(Timestamp::from_wire(&parse(r#"{"$date":-1}"#)), None);
    assert_eq!(Timestamp::from_wire(&parse(r#"{"other":1}"#)), None);
}
