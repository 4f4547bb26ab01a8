use rasta::pump::CallOutcome;
use rasta::requests::{
    create_direct_reply, join_room_call, login_call, login_reply_from_outcome,
    rooms_from_outcome, set_away_call, spotlight_find_room, subscribe_room_request,
};
use rasta::schema::{LoginReply, Timestamp, UserID};
use rasta::rest::{login_form, members_endpoint, RestState};
use rasta::schema::{Room, ShortRoom, Spotlight};
use rasta::session::{parse_target, Session, Target};
use rasta::creds::Credentials;
use rasta::wire::WireValue;
use rasta::ClientError;

fn chat(id: &str, name: &str) -> Room {
    Room::Chat {
        id: id.to_string(),
        name: name.to_string(),
        topic: None,
        muted: vec![],
        lm: None,
    }
}

#[test]
fn rooms_are_found_by_id_and_name() {
    let session = Session::new(vec![
        chat("r1", "general"),
        Room::Direct { id: "d1".to_string(), lm: None },
        chat("r2", "random"),
    ]);
    assert_eq!(session.room_by_id("d1"), Some(&Room::Direct { id: "d1".to_string(), lm: None }));
    assert_eq!(session.room_by_id("nope"), None);
    assert_eq!(session.room_by_name("random"), Some(&chat("r2", "random")));
    // direct rooms have no name to find
    assert_eq!(session.room_by_name("d1"), None);
}

#[test]
fn registered_direct_rooms_are_remembered() {
    let mut session = Session::new(vec![]);
    assert!(session.direct_room_id("bob").is_none());
    session.register_direct("bob".to_string(), Room::Direct { id: "d9".to_string(), lm: None });
    assert_eq!(session.direct_room_id("bob"), Some(&"d9".to_string()));
    assert_eq!(session.rooms().len(), 1);
}

#[test]
fn targets_split_on_the_channel_mark() {
    assert_eq!(parse_target("#general"), Target::Channel("general".to_string()));
    assert_eq!(parse_target("alice"), Target::User("alice".to_string()));
    assert_eq!(parse_target(""), Target::User(String::new()));
}

#[test]
fn spotlight_picks_the_exact_name() {
    let sp = Spotlight {
        users: vec![],
        rooms: vec![
            ShortRoom { id: "r1".to_string(), name: "general-talk".to_string() },
            ShortRoom { id: "r2".to_string(), name: "general".to_string() },
        ],
    };
    assert_eq!(spotlight_find_room(&sp, "general"), Some("r2".to_string()));
    assert_eq!(spotlight_find_room(&sp, "nowhere"), None);
}

#[test]
fn request_builders_match_the_protocol() {
    let (method, params) = login_call(Credentials::Token("t".to_string()));
    assert_eq!(method, "login");
    assert_eq!(params.len(), 1);

    let (method, params) = set_away_call(true);
    assert_eq!(method, "UserPresence:away");
    assert!(params.is_empty());
    let (method, _) = set_away_call(false);
    assert_eq!(method, "UserPresence:online");

    let (method, params) = join_room_call("r1".to_string(), Some("code".to_string()));
    assert_eq!(method, "joinRoom");
    assert_eq!(params, vec![
        WireValue::Str("r1".to_string()),
        WireValue::Str("code".to_string()),
    ]);

    let (id, name, params) = subscribe_room_request("ROOM".to_string());
    assert_eq!(id, "ROOM");
    assert_eq!(name, "stream-room-messages");
    assert_eq!(params, vec![
        WireValue::Str("ROOM".to_string()),
        WireValue::Bool(false),
    ]);
}

#[test]
fn create_direct_reply_reads_the_room_id() {
    let reply = WireValue::Obj(vec![
        ("rid".to_string(), WireValue::Str("d42".to_string())),
    ]);
    assert_eq!(
        create_direct_reply(reply),
        Ok(Room::Direct { id: "d42".to_string(), lm: None })
    );
    let bad = WireValue::Obj(vec![("other".to_string(), WireValue::Null)]);
    assert!(matches!(create_direct_reply(bad), Err(ClientError::MalformedReply)));
}

#[test]
fn rooms_outcome_parses_each_record() {
    let reply = WireValue::Arr(vec![
        WireValue::Obj(vec![
            ("_id".to_string(), WireValue::Str("r1".to_string())),
            ("t".to_string(), WireValue::Str("c".to_string())),
            ("name".to_string(), WireValue::Str("general".to_string())),
        ]),
        WireValue::Obj(vec![
            ("_id".to_string(), WireValue::Str("d1".to_string())),
            ("t".to_string(), WireValue::Str("d".to_string())),
        ]),
    ]);
    let rooms = rooms_from_outcome(CallOutcome::Success(reply)).unwrap();
    assert_eq!(rooms, vec![
        chat("r1", "general"),
        Room::Direct { id: "d1".to_string(), lm: None },
    ]);

    let failed = rooms_from_outcome(CallOutcome::Failure(WireValue::Bool(true)));
    assert!(matches!(failed, Err(ClientError::RpcError(WireValue::Bool(true)))));
    let closed = rooms_from_outcome(CallOutcome::Closed);
    assert!(matches!(closed, Err(ClientError::ConnectionClosed)));
}

#[test]
fn rest_state_builds_urls_and_headers() {
    let mut rest = RestState::new("chat.example.org");
    assert_eq!(rest.url_for("v1/login"), "https://chat.example.org/api/v1/login");
    assert!(rest.auth_headers().is_none());
    assert!(rest.token().is_none());

    let creds = rest.apply_login("tok".to_string(), "uid".to_string());
    assert_eq!(creds, Credentials::Token("tok".to_string()));
    assert_eq!(rest.auth_headers(), Some(("uid".to_string(), "tok".to_string())));
    assert_eq!(rest.token(), Some(Credentials::Token("tok".to_string())));
}

#[test]
fn login_form_fields_follow_the_credentials() {
    let clear = Credentials::Clear { user: "u".to_string(), password: "p".to_string() };
    assert_eq!(login_form(&clear), vec![
        ("user".to_string(), "u".to_string()),
        ("password".to_string(), "p".to_string()),
    ]);
    let token = Credentials::Token("t".to_string());
    assert_eq!(login_form(&token), vec![("resume".to_string(), "t".to_string())]);
}

#[test]
fn member_endpoints_exist_for_group_rooms_only() {
    assert_eq!(members_endpoint(&chat("r", "n")), Some("v1/channels.members"));
    assert_eq!(
        members_endpoint(&Room::Private {
            id: "p".to_string(),
            name: "n".to_string(),
            topic: None,
            muted: vec![],
            lm: None,
            ro: false
        }),
        Some("v1/groups.members")
    );
    assert_eq!(members_endpoint(&Room::Direct { id: "d".to_string(), lm: None }), None);
}

#[test]
fn failed_rest_login_is_an_error() {
    let mut rest = RestState::new("h");
    let r = rasta::rest::read_login_reply(&mut rest, None);
    assert!(matches!(r, Err(ClientError::LoginFailed)));
    let r = rasta::rest::read_login_reply(&mut rest, Some(("tok".to_string(), "uid".to_string())));
    assert_eq!(r.unwrap(), Credentials::Token("tok".to_string()));
}

#[test]
fn clearing_a_topic_sends_null() {
    let room = chat("r1", "general");
    let (method, params) = rasta::requests::set_topic_call(&room, None);
    assert_eq!(method, "saveRoomSettings");
    assert_eq!(params[2], WireValue::Null);
    let (_, params) = rasta::requests::set_topic_call(&room, Some("news".to_string()));
    assert_eq!(params[2], WireValue::Str("news".to_string()));
}

#[test]
fn rejected_rpc_login_is_a_failed_login() {
    // the server answered the login call with an error payload
    let outcome = CallOutcome::Failure(WireValue::Str("unauthorized".to_string()));
    assert_eq!(login_reply_from_outcome(outcome), Err(ClientError::LoginFailed));
    // a closed connection and a malformed reply keep their own errors
    assert_eq!(
        login_reply_from_outcome(CallOutcome::Closed),
        Err(ClientError::ConnectionClosed)
    );
    assert_eq!(
        login_reply_from_outcome(CallOutcome::Success(WireValue::Null)),
        Err(ClientError::MalformedReply)
    );
}

#[test]
fn successful_login_reply_is_read_whole() {
    let reply = WireValue::Obj(vec![
        ("id".to_string(), WireValue::Str("uid".to_string())),
        ("token".to_string(), WireValue::Str("tok".to_string())),
        (
            "tokenExpires".to_string(),
            WireValue::Obj(vec![("$date".to_string(), WireValue::Int(99))]),
        ),
    ]);
    assert_eq!(
        login_reply_from_outcome(CallOutcome::Success(reply)),
        Ok(LoginReply {
            id: UserID("uid".to_string()),
            token: "tok".to_string(),
            token_expires: Timestamp { millis: Some(99) },
        })
    );
}

#[test]
fn websocket_endpoint_names_the_documented_path() {
    assert_eq!(
        rasta::protocol::websocket_url("chat.example.org"),
        "wss://chat.example.org/websocket"
    );
}
