//! The method calls and subscriptions the client issues, and how their
//! outcomes are read.
//!
//! Each request builder returns the method name and parameter list that
//! go into one call; each outcome reader turns a call's outcome into
//! the typed reply the caller asked for. The transport work in between
//! is the pump's.

use vstd::prelude::*;
use crate::creds::{credentials_wire, Credentials};
use crate::pump::CallOutcome;
use crate::schema::{
    spec_login_reply_parseable, spec_login_reply_rel, spec_presence_name, spec_room_id,
    spec_room_parseable, spec_room_rel, LoginReply, MessageID, Presence, Room, ShortRoom,
    Spotlight,
};
use crate::wire::{spec_lookup, WireValue};
use crate::ClientError;

verus! {

/// The login call: one parameter, the framed credentials.
pub fn login_call(creds: Credentials) -> (r: (String, Vec<WireValue>))
    ensures
        r.0@ == "login"@,
        r.1@.len() == 1,
        credentials_wire(r.1@[0], creds),
{
    let payload = creds.json();
    let mut params: Vec<WireValue> = Vec::new();
    params.push(payload);
    ("login".to_owned(), params)
}

/// Reads a login call's outcome: a login the server rejects is a
/// failed login, a malformed reply or a closed connection its own
/// error.
pub fn login_reply_from_outcome(o: CallOutcome) -> (r: Result<LoginReply, ClientError>)
    ensures
        match o {
            CallOutcome::Success(v) => match r {
                Ok(lr) => spec_login_reply_rel(v, lr) && spec_login_reply_parseable(v),
                Err(e) => !spec_login_reply_parseable(v) && e matches ClientError::MalformedReply,
            },
            CallOutcome::Failure(_) => r matches Err(ClientError::LoginFailed),
            CallOutcome::Closed => r matches Err(ClientError::ConnectionClosed),
        },
{
    match o {
        CallOutcome::Success(v) => match LoginReply::from_wire(&v) {
            Some(lr) => Ok(lr),
            None => Err(ClientError::MalformedReply),
        },
        CallOutcome::Failure(_) => Err(ClientError::LoginFailed),
        CallOutcome::Closed => Err(ClientError::ConnectionClosed),
    }
}

/// The room-list call: no parameters.
pub fn rooms_call() -> (r: (String, Vec<WireValue>))
    ensures
        r.0@ == "rooms/get"@,
        r.1@.len() == 0,
{
    ("rooms/get".to_owned(), Vec::new())
}

/// Element-wise correspondence between an array and parsed rooms.
pub open spec fn spec_rooms_rel(arr: Seq<WireValue>, out: Seq<Room>) -> bool {
    out.len() == arr.len() && forall|k: int|
        0 <= k < arr.len() ==> spec_room_rel(#[trigger] arr[k], out[k])
}

/// Reads the room-list outcome: an array of room records.
pub fn rooms_from_outcome(o: CallOutcome) -> (r: Result<Vec<Room>, ClientError>)
    ensures
        match o {
            CallOutcome::Success(v) => match r {
                Ok(rooms) => v matches WireValue::Arr(a) && spec_rooms_rel(a@, rooms@),
                Err(ClientError::MalformedReply) => match v {
                    WireValue::Arr(a) => exists|k: int|
                        0 <= k < a@.len() && !spec_room_parseable(#[trigger] a@[k]),
                    _ => true,
                },
                Err(_) => false,
            },
            CallOutcome::Failure(e) => r matches Err(ClientError::RpcError(e2)) && e2 == e,
            CallOutcome::Closed => r matches Err(ClientError::ConnectionClosed),
        },
{
    match o {
        CallOutcome::Success(v) => match v {
            WireValue::Arr(a) => {
                let mut out: Vec<Room> = Vec::new();
                let mut i: usize = 0;
                while i < a.len()
                    invariant
                        i <= a.len(),
                        out@.len() == i as int,
                        forall|k: int| 0 <= k < i ==> spec_room_rel(#[trigger] a@[k], out@[k]),
                    decreases a.len() - i,
                {
                    match Room::from_wire(&a[i]) {
                        Some(room) => {
                            out.push(room);
                        },
                        None => {
                            return Err(ClientError::MalformedReply);
                        },
                    }
                    i += 1;
                }
                Ok(out)
            },
            _ => Err(ClientError::MalformedReply),
        },
        CallOutcome::Failure(e) => Err(ClientError::RpcError(e)),
        CallOutcome::Closed => Err(ClientError::ConnectionClosed),
    }
}

/// The send-message call: one object carrying the message id, the room
/// id and the text.
pub fn send_message_call(id: MessageID, room: &Room, msg: String) -> (r: (String, Vec<WireValue>))
    ensures
        r.0@ == "sendMessage"@,
        r.1@.len() == 1,
        ({
            &&& r.1@[0] matches WireValue::Obj(ms)
            &&& ms@.len() == 3
            &&& ms@[0].0@ == "_id"@ && ms@[0].1 == WireValue::Str(id.0)
            &&& ms@[1].0@ == "rid"@
            &&& (ms@[1].1 matches WireValue::Str(s) && s@ == spec_room_id(*room)@)
            &&& ms@[2].0@ == "msg"@ && ms@[2].1 == WireValue::Str(msg)
        }),
{
    let mut ms: Vec<(String, WireValue)> = Vec::new();
    ms.push(("_id".to_owned(), WireValue::Str(id.0)));
    ms.push(("rid".to_owned(), WireValue::Str(room.id().to_owned())));
    ms.push(("msg".to_owned(), WireValue::Str(msg)));
    let mut params: Vec<WireValue> = Vec::new();
    params.push(WireValue::Obj(ms));
    ("sendMessage".to_owned(), params)
}

/// The create-direct-message call: one parameter, the peer's name.
pub fn create_direct_call(user: String) -> (r: (String, Vec<WireValue>))
    ensures
        r.0@ == "createDirectMessage"@,
        r.1@.len() == 1,
        r.1@[0] == WireValue::Str(user),
{
    let mut params: Vec<WireValue> = Vec::new();
    params.push(WireValue::Str(user));
    ("createDirectMessage".to_owned(), params)
}

/// Reads a create-direct-message reply: the `rid` member names the
/// fresh direct room.
pub fn create_direct_reply(v: WireValue) -> (r: Result<Room, ClientError>)
    ensures
        match v {
            WireValue::Obj(ms) => match spec_lookup(ms@, "rid"@) {
                Some(WireValue::Str(s)) => r matches Ok(room) && room == (Room::Direct {
                    id: s,
                    lm: None,
                }),
                _ => r matches Err(ClientError::MalformedReply),
            },
            _ => r matches Err(ClientError::MalformedReply),
        },
{
    match crate::wire::take_field(v, "rid") {
        Some(WireValue::Str(id)) => Ok(Room::Direct { id, lm: None }),
        _ => Err(ClientError::MalformedReply),
    }
}

/// The set-default-status call: one parameter, the presence name.
pub fn set_default_status_call(p: Presence) -> (r: (String, Vec<WireValue>))
    ensures
        r.0@ == "UserPresence:setDefaultStatus"@,
        r.1@.len() == 1,
        (r.1@[0] matches WireValue::Str(s) && s@ == spec_presence_name(p)),
{
    let mut params: Vec<WireValue> = Vec::new();
    params.push(WireValue::Str(crate::schema::presence_name(p).to_owned()));
    ("UserPresence:setDefaultStatus".to_owned(), params)
}

/// The away and online calls: the method name says it all, no
/// parameters travel.
pub fn set_away_call(away: bool) -> (r: (String, Vec<WireValue>))
    ensures
        away ==> r.0@ == "UserPresence:away"@,
        !away ==> r.0@ == "UserPresence:online"@,
        r.1@.len() == 0,
{
    let method = if away {
        "UserPresence:away".to_owned()
    } else {
        "UserPresence:online".to_owned()
    };
    (method, Vec::new())
}

/// The save-room-settings call: the room id, the setting's name and
/// its new value.
pub fn set_room_call(room: &Room, name: String, value: WireValue) -> (r: (String, Vec<WireValue>))
    ensures
        r.0@ == "saveRoomSettings"@,
        r.1@.len() == 3,
        (r.1@[0] matches WireValue::Str(s) && s@ == spec_room_id(*room)@),
        r.1@[1] == WireValue::Str(name),
        r.1@[2] == value,
{
    let mut params: Vec<WireValue> = Vec::new();
    params.push(WireValue::Str(room.id().to_owned()));
    params.push(WireValue::Str(name));
    params.push(value);
    ("saveRoomSettings".to_owned(), params)
}

/// The set-topic call: save-room-settings on `roomTopic`; no topic
/// clears it with a null.
pub fn set_topic_call(room: &Room, topic: Option<String>) -> (r: (String, Vec<WireValue>))
    ensures
        r.0@ == "saveRoomSettings"@,
        r.1@.len() == 3,
        (r.1@[0] matches WireValue::Str(s) && s@ == spec_room_id(*room)@),
        (r.1@[1] matches WireValue::Str(n) && n@ == "roomTopic"@),
        r.1@[2] == (match topic {
            Some(t) => WireValue::Str(t),
            None => WireValue::Null,
        }),
{
    let value = match topic {
        Some(t) => WireValue::Str(t),
        None => WireValue::Null,
    };
    set_room_call(room, "roomTopic".to_owned(), value)
}

/// The spotlight call: the search text, no users, rooms only.
pub fn spotlight_call(name: String) -> (r: (String, Vec<WireValue>))
    ensures
        r.0@ == "spotlight"@,
        r.1@.len() == 3,
        r.1@[0] == WireValue::Str(name),
        (r.1@[1] matches WireValue::Arr(a) && a@.len() == 0),
        ({
            &&& r.1@[2] matches WireValue::Obj(ms)
            &&& ms@.len() == 2
            &&& ms@[0].0@ == "users"@ && ms@[0].1 == WireValue::Bool(false)
            &&& ms@[1].0@ == "rooms"@ && ms@[1].1 == WireValue::Bool(true)
        }),
{
    let mut flags: Vec<(String, WireValue)> = Vec::new();
    flags.push(("users".to_owned(), WireValue::Bool(false)));
    flags.push(("rooms".to_owned(), WireValue::Bool(true)));
    let mut params: Vec<WireValue> = Vec::new();
    params.push(WireValue::Str(name));
    params.push(WireValue::Arr(Vec::new()));
    params.push(WireValue::Obj(flags));
    ("spotlight".to_owned(), params)
}

/// Index of the first short room with this name, if any.
pub open spec fn spec_find_short_room(rooms: Seq<ShortRoom>, name: Seq<char>) -> Option<int>
    decreases rooms.len(),
{
    if rooms.len() == 0 {
        None
    } else if rooms[0].name@ == name {
        Some(0int)
    } else {
        match spec_find_short_room(rooms.drop_first(), name) {
            Some(i) => Some(i + 1),
            None => None,
        }
    }
}

/// What the short-room index says about the rooms.
pub proof fn lemma_find_short_room(rooms: Seq<ShortRoom>, name: Seq<char>)
    ensures
        match spec_find_short_room(rooms, name) {
            Some(i) => {
                &&& 0 <= i < rooms.len()
                &&& rooms[i].name@ == name
                &&& forall|j: int| 0 <= j < i ==> (#[trigger] rooms[j]).name@ != name
            },
            None => forall|j: int| 0 <= j < rooms.len() ==> (#[trigger] rooms[j]).name@ != name,
        },
    decreases rooms.len(),
{
    if rooms.len() > 0 && rooms[0].name@ != name {
        lemma_find_short_room(rooms.drop_first(), name);
        assert(forall|j: int|
            0 < j < rooms.len() ==> #[trigger] rooms[j] == rooms.drop_first()[j - 1]);
    }
}

/// The id of the first spotlight room whose name is exactly `name`.
pub fn spotlight_find_room(sp: &Spotlight, name: &str) -> (r: Option<String>)
    ensures
        match r {
            Some(id) => {
                &&& spec_find_short_room(sp.rooms@, name@) matches Some(i)
                &&& id == sp.rooms@[i].id
            },
            None => spec_find_short_room(sp.rooms@, name@) is None,
        },
{
    let mut i: usize = 0;
    while i < sp.rooms.len()
        invariant
            i <= sp.rooms.len(),
            forall|j: int| 0 <= j < i ==> (#[trigger] sp.rooms@[j]).name@ != name@,
        decreases sp.rooms.len() - i,
    {
        if crate::wire::string_eq(&sp.rooms[i].name, name) {
            proof {
                lemma_find_short_room(sp.rooms@, name@);
            }
            return Some(sp.rooms[i].id.clone());
        }
        i += 1;
    }
    proof {
        lemma_find_short_room(sp.rooms@, name@);
    }
    None
}

/// The join-room call: the room id, and the join code when one is
/// needed.
pub fn join_room_call(rid: String, code: Option<String>) -> (r: (String, Vec<WireValue>))
    ensures
        r.0@ == "joinRoom"@,
        match code {
            Some(c) => r.1@.len() == 2 && r.1@[0] == WireValue::Str(rid) && r.1@[1]
                == WireValue::Str(c),
            None => r.1@.len() == 1 && r.1@[0] == WireValue::Str(rid),
        },
{
    let mut params: Vec<WireValue> = Vec::new();
    params.push(WireValue::Str(rid));
    match code {
        Some(c) => {
            params.push(WireValue::Str(c));
        },
        None => {},
    }
    ("joinRoom".to_owned(), params)
}

/// The leave-room call: one parameter, the room id.
pub fn leave_room_call(rid: String) -> (r: (String, Vec<WireValue>))
    ensures
        r.0@ == "leaveRoom"@,
        r.1@.len() == 1,
        r.1@[0] == WireValue::Str(rid),
{
    let mut params: Vec<WireValue> = Vec::new();
    params.push(WireValue::Str(rid));
    ("leaveRoom".to_owned(), params)
}

/// The subscription that follows one room's messages.
pub fn subscribe_room_request(room_id: String) -> (r: (String, String, Vec<WireValue>))
    ensures
        r.0@ == room_id@,
        r.1@ == "stream-room-messages"@,
        r.2@.len() == 2,
        r.2@[0] == WireValue::Str(room_id),
        r.2@[1] == WireValue::Bool(false),
{
    let id = room_id.clone();
    let mut params: Vec<WireValue> = Vec::new();
    params.push(WireValue::Str(room_id));
    params.push(WireValue::Bool(false));
    (id, "stream-room-messages".to_owned(), params)
}

/// The pseudo-room that carries every message addressed to the caller.
pub fn my_messages_stream() -> (r: String)
    ensures
        r@ == "__my_messages__"@,
{
    "__my_messages__".to_owned()
}

} // verus!
