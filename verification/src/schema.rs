//! The domain records the client reads out of payloads: users, rooms,
//! room events, and the login reply.
//!
//! The wire carries them as JSON objects; [`crate::wire::WireValue`]
//! holds their structure and the parsers here read them into typed
//! records. A record parses if and only if the frame has the members
//! the record needs; what it does not need is passed over.

use vstd::prelude::*;
use crate::rand_id::random_alphanumeric_id;
use crate::wire::{spec_lookup, WireValue};

verus! {

/// An instant, carried on the wire as `{"$date": millis}`.
#[derive(Clone, Copy, Debug, PartialEq, Eq)]
pub struct Timestamp {
    pub millis: Option<u64>,
}

/// Does `a` lie strictly after `b`? An absent instant lies before
/// every present one.
pub open spec fn spec_ts_after(a: Timestamp, b: Timestamp) -> bool {
    match (a.millis, b.millis) {
        (Some(x), Some(y)) => x > y,
        (Some(_), None) => true,
        (None, _) => false,
    }
}

impl Timestamp {
    /// Does `self` lie strictly after `other`?
    pub fn after(&self, other: &Timestamp) -> (r: bool)
        ensures
            r == spec_ts_after(*self, *other),
    {
        match (self.millis, other.millis) {
            (Some(x), Some(y)) => x > y,
            (Some(_), None) => true,
            (None, _) => false,
        }
    }

    /// Reads `{"$date": millis}`; anything else is no timestamp.
    pub fn from_wire(v: &WireValue) -> (r: Option<Timestamp>)
        ensures
            r == spec_timestamp_from_wire(*v),
    {
        match v.get_field("$date") {
            Some(f) => match f {
                WireValue::Int(n) => {
                    if *n >= 0 {
                        Some(Timestamp { millis: Some(*n as u64) })
                    } else {
                        None
                    }
                },
                _ => None,
            },
            None => None,
        }
    }
}

/// What reading a timestamp yields, as a function of the value.
pub open spec fn spec_timestamp_from_wire(v: WireValue) -> Option<Timestamp> {
    match v {
        WireValue::Obj(ms) => match spec_lookup(ms@, "$date"@) {
            Some(WireValue::Int(n)) => if n >= 0 {
                Some(Timestamp { millis: Some(n as u64) })
            } else {
                None
            },
            _ => None,
        },
        _ => None,
    }
}

/// A user's opaque identifier.
#[derive(Clone, Debug, PartialEq, Eq)]
pub struct UserID(pub String);


impl UserID {
    /// Does this id read as the given text?
    pub fn eq_str(&self, other: &str) -> (r: bool)
        ensures
            r == (self.0@ == other@),
    {
        crate::wire::string_eq(&self.0, other)
    }
}

/// A message's opaque identifier.
#[derive(Clone, Debug, PartialEq, Eq)]
pub struct MessageID(pub String);

impl MessageID {
    /// A fresh random message id of sixteen letters and digits.
    pub fn new() -> (r: MessageID)
        ensures
            r.0@.len() == 16,
            forall|i: int|
                0 <= i < r.0@.len() ==> crate::rand_id::is_ascii_alphanumeric(#[trigger] r.0@[i]),
    {
        MessageID(random_alphanumeric_id(16))
    }
}

/// A user's presence state.
#[derive(Clone, Copy, Debug, PartialEq, Eq, Structural)]
pub enum Presence {
    Online,
    Busy,
    Away,
    Offline,
}

/// The name each presence state has on the wire.
pub open spec fn spec_presence_name(p: Presence) -> Seq<char> {
    match p {
        Presence::Online => "online"@,
        Presence::Busy => "busy"@,
        Presence::Away => "away"@,
        Presence::Offline => "offline"@,
    }
}

/// The wire name of a presence state.
pub fn presence_name(p: Presence) -> (r: &'static str)
    ensures
        r@ == spec_presence_name(p),
{
    match p {
        Presence::Online => "online",
        Presence::Busy => "busy",
        Presence::Away => "away",
        Presence::Offline => "offline",
    }
}

/// The presence state a wire name denotes, if any.
pub open spec fn spec_presence_from_name(s: Seq<char>) -> Option<Presence> {
    if s == "online"@ {
        Some(Presence::Online)
    } else if s == "busy"@ {
        Some(Presence::Busy)
    } else if s == "away"@ {
        Some(Presence::Away)
    } else if s == "offline"@ {
        Some(Presence::Offline)
    } else {
        None
    }
}

/// Reads a presence state from its wire name.
pub fn presence_from_name(s: &String) -> (r: Option<Presence>)
    ensures
        r == spec_presence_from_name(s@),
{
    if crate::wire::string_eq(s, "online") {
        Some(Presence::Online)
    } else if crate::wire::string_eq(s, "busy") {
        Some(Presence::Busy)
    } else if crate::wire::string_eq(s, "away") {
        Some(Presence::Away)
    } else if crate::wire::string_eq(s, "offline") {
        Some(Presence::Offline)
    } else {
        None
    }
}

/// A full user record.
#[derive(Clone, Debug, PartialEq, Eq)]
pub struct User {
    pub id: UserID,
    pub created_at: Timestamp,
    pub roles: Vec<String>,
    pub usertype: String,
    pub active: bool,
    pub username: Option<String>,
    pub name: Option<String>,
}

/// The short user record carried in events and member lists.
#[derive(Clone, Debug, PartialEq, Eq)]
pub struct ShortUser {
    pub id: UserID,
    pub username: String,
    pub realname: String,
    pub status: Option<Presence>,
}

/// What a successful login returns.
#[derive(Clone, Debug, PartialEq, Eq)]
pub struct LoginReply {
    pub id: UserID,
    pub token: String,
    pub token_expires: Timestamp,
}

/// A room, keyed by the `t` discriminant on the wire: direct, chat,
/// private, or livechat.
#[derive(Clone, Debug, PartialEq, Eq)]
pub enum Room {
    Direct { id: String, lm: Option<Timestamp> },
    Chat {
        id: String,
        name: String,
        topic: Option<String>,
        muted: Vec<String>,
        lm: Option<Timestamp>,
    },
    Private {
        id: String,
        name: String,
        topic: Option<String>,
        muted: Vec<String>,
        lm: Option<Timestamp>,
        ro: bool,
    },
    LiveChat { id: String, lm: Option<Timestamp> },
}

/// The id of a room, whatever its kind.
pub open spec fn spec_room_id(r: Room) -> String {
    match r {
        Room::Direct { id, .. } => id,
        Room::Chat { id, .. } => id,
        Room::Private { id, .. } => id,
        Room::LiveChat { id, .. } => id,
    }
}

/// The last-message instant of a room, whatever its kind.
pub open spec fn spec_room_lm(r: Room) -> Option<Timestamp> {
    match r {
        Room::Direct { lm, .. } => lm,
        Room::Chat { lm, .. } => lm,
        Room::Private { lm, .. } => lm,
        Room::LiveChat { lm, .. } => lm,
    }
}

/// The same room with its last-message instant replaced.
pub open spec fn spec_room_with_lm(r: Room, lm2: Option<Timestamp>) -> Room {
    match r {
        Room::Direct { id, .. } => Room::Direct { id, lm: lm2 },
        Room::Chat { id, name, topic, muted, .. } => Room::Chat { id, name, topic, muted, lm: lm2 },
        Room::Private { id, name, topic, muted, ro, .. } => Room::Private {
            id,
            name,
            topic,
            muted,
            lm: lm2,
            ro,
        },
        Room::LiveChat { id, .. } => Room::LiveChat { id, lm: lm2 },
    }
}

impl Room {
    /// The room's id.
    pub fn id(&self) -> (r: &str)
        ensures
            r@ == spec_room_id(*self)@,
    {
        match self {
            Room::Direct { id, .. } => id.as_str(),
            Room::Chat { id, .. } => id.as_str(),
            Room::Private { id, .. } => id.as_str(),
            Room::LiveChat { id, .. } => id.as_str(),
        }
    }

    /// Accepts `ts` if it does not lie before the room's last-message
    /// instant, and remembers it; a stale instant changes nothing.
    pub fn is_timestamp_fresh(&mut self, ts: Timestamp) -> (r: bool)
        ensures
            r == (match spec_room_lm(*old(self)) {
                Some(t2) => !spec_ts_after(t2, ts),
                None => true,
            }),
            r ==> *final(self) == spec_room_with_lm(*old(self), Some(ts)),
            !r ==> *final(self) == *old(self),
    {
        let stale = match self {
            Room::Direct { lm, .. } => match lm {
                Some(t2) => t2.after(&ts),
                None => false,
            },
            Room::Chat { lm, .. } => match lm {
                Some(t2) => t2.after(&ts),
                None => false,
            },
            Room::Private { lm, .. } => match lm {
                Some(t2) => t2.after(&ts),
                None => false,
            },
            Room::LiveChat { lm, .. } => match lm {
                Some(t2) => t2.after(&ts),
                None => false,
            },
        };
        if stale {
            false
        } else {
            match self {
                Room::Direct { lm, .. } => {
                    *lm = Some(ts);
                },
                Room::Chat { lm, .. } => {
                    *lm = Some(ts);
                },
                Room::Private { lm, .. } => {
                    *lm = Some(ts);
                },
                Room::LiveChat { lm, .. } => {
                    *lm = Some(ts);
                },
            }
            true
        }
    }
}


// ---------------------------------------------------------------------
// Reading records out of wire values. Strings that flow from the value
// into the record are pinned by identity; a record parses if and only
// if the value has what the record needs.
// ---------------------------------------------------------------------

/// Are `out` exactly the strings of `arr`, in order?
pub open spec fn spec_strings_rel(arr: Seq<WireValue>, out: Seq<String>) -> bool {
    out.len() == arr.len() && forall|k: int|
        0 <= k < arr.len() ==> (#[trigger] arr[k] matches WireValue::Str(s) && out[k] == s)
}

/// Is every element of `arr` a string?
pub open spec fn spec_all_strings(arr: Seq<WireValue>) -> bool {
    forall|k: int| 0 <= k < arr.len() ==> (#[trigger] arr[k] matches WireValue::Str(_))
}

/// Reads an array of strings; `None` as soon as an element is not a
/// string.
pub fn strings_from_wire(arr: &Vec<WireValue>) -> (r: Option<Vec<String>>)
    ensures
        match r {
            Some(out) => spec_strings_rel(arr@, out@),
            None => !spec_all_strings(arr@),
        },
{
    let mut out: Vec<String> = Vec::new();
    let mut i: usize = 0;
    while i < arr.len()
        invariant
            i <= arr.len(),
            out@.len() == i as int,
            forall|k: int|
                0 <= k < i ==> (#[trigger] arr@[k] matches WireValue::Str(s) && out@[k] == s),
        decreases arr.len() - i,
    {
        match &arr[i] {
            WireValue::Str(s) => {
                out.push(s.clone());
            },
            _ => {
                return None;
            },
        }
        i += 1;
    }
    Some(out)
}

/// How an optional string member may read: absent or null give none,
/// a string gives it, anything else does not parse.
pub open spec fn spec_opt_string_rel(
    ms: Seq<(String, WireValue)>,
    key: Seq<char>,
    out: Option<String>,
) -> bool {
    match spec_lookup(ms, key) {
        Some(WireValue::Str(s)) => out == Some(s),
        Some(WireValue::Null) => out is None,
        Some(_) => false,
        None => out is None,
    }
}

/// Is the optional string member readable at all?
pub open spec fn spec_opt_string_ok(ms: Seq<(String, WireValue)>, key: Seq<char>) -> bool {
    match spec_lookup(ms, key) {
        Some(WireValue::Str(_)) => true,
        Some(WireValue::Null) => true,
        Some(_) => false,
        None => true,
    }
}

/// A required string member, by identity.
pub open spec fn spec_req_string(ms: Seq<(String, WireValue)>, key: Seq<char>, out: String) -> bool {
    spec_lookup(ms, key) matches Some(WireValue::Str(s)) && out == s
}

/// How the muted list reads: absent gives the empty list.
pub open spec fn spec_muted_rel(ms: Seq<(String, WireValue)>, out: Seq<String>) -> bool {
    match spec_lookup(ms, "muted"@) {
        Some(WireValue::Arr(a)) => spec_strings_rel(a@, out),
        Some(_) => false,
        None => out.len() == 0,
    }
}

/// Is the muted list readable at all?
pub open spec fn spec_muted_ok(ms: Seq<(String, WireValue)>) -> bool {
    match spec_lookup(ms, "muted"@) {
        Some(WireValue::Arr(a)) => spec_all_strings(a@),
        Some(_) => false,
        None => true,
    }
}

/// The exact correspondence between a wire value and a room record.
/// The last-message instant is volatile bookkeeping, not read from the
/// wire: a freshly parsed room has none.
pub open spec fn spec_room_rel(v: WireValue, r: Room) -> bool {
    &&& v matches WireValue::Obj(ms)
    &&& match r {
        Room::Direct { id, lm } => {
            &&& (spec_lookup(ms@, "t"@) matches Some(WireValue::Str(t)) && t@ == "d"@)
            &&& spec_req_string(ms@, "_id"@, id)
            &&& lm is None
        },
        Room::Chat { id, name, topic, muted, lm } => {
            &&& (spec_lookup(ms@, "t"@) matches Some(WireValue::Str(t)) && t@ == "c"@)
            &&& spec_req_string(ms@, "_id"@, id)
            &&& spec_req_string(ms@, "name"@, name)
            &&& spec_opt_string_rel(ms@, "topic"@, topic)
            &&& spec_muted_rel(ms@, muted@)
            &&& lm is None
        },
        Room::Private { id, name, topic, muted, lm, ro } => {
            &&& (spec_lookup(ms@, "t"@) matches Some(WireValue::Str(t)) && t@ == "p"@)
            &&& spec_req_string(ms@, "_id"@, id)
            &&& spec_req_string(ms@, "name"@, name)
            &&& spec_opt_string_rel(ms@, "topic"@, topic)
            &&& spec_muted_rel(ms@, muted@)
            &&& (spec_lookup(ms@, "ro"@) matches Some(WireValue::Bool(b)) && b == ro)
            &&& lm is None
        },
        Room::LiveChat { id, lm } => {
            &&& (spec_lookup(ms@, "t"@) matches Some(WireValue::Str(t)) && t@ == "l"@)
            &&& spec_req_string(ms@, "_id"@, id)
            &&& lm is None
        },
    }
}

/// When a room record can be read from the value.
pub open spec fn spec_room_parseable(v: WireValue) -> bool {
    &&& v matches WireValue::Obj(ms)
    &&& (spec_lookup(ms@, "_id"@) matches Some(WireValue::Str(_)))
    &&& match spec_lookup(ms@, "t"@) {
        Some(WireValue::Str(t)) => if t@ == "d"@ || t@ == "l"@ {
            true
        } else if t@ == "c"@ || t@ == "p"@ {
            &&& (spec_lookup(ms@, "name"@) matches Some(WireValue::Str(_)))
            &&& spec_opt_string_ok(ms@, "topic"@)
            &&& spec_muted_ok(ms@)
            &&& (t@ == "c"@ || (spec_lookup(ms@, "ro"@) matches Some(WireValue::Bool(_))))
        } else {
            false
        },
        _ => false,
    }
}

impl Room {
    /// Reads a room record, keyed by its `t` discriminant.
    pub fn from_wire(v: &WireValue) -> (r: Option<Room>)
        ensures
            match r {
                Some(room) => spec_room_rel(*v, room) && spec_room_parseable(*v),
                None => !spec_room_parseable(*v),
            },
    {
        let id: String = match v.get_field("_id") {
            Some(f) => match f.as_str() {
                Some(s) => s.clone(),
                None => {
                    return None;
                },
            },
            None => {
                return None;
            },
        };
        let tag: String = match v.get_field("t") {
            Some(f) => match f.as_str() {
                Some(s) => s.clone(),
                None => {
                    return None;
                },
            },
            None => {
                return None;
            },
        };
        if crate::wire::string_eq(&tag, "d") {
            return Some(Room::Direct { id, lm: None });
        }
        if crate::wire::string_eq(&tag, "l") {
            return Some(Room::LiveChat { id, lm: None });
        }
        let is_chat = crate::wire::string_eq(&tag, "c");
        let is_private = crate::wire::string_eq(&tag, "p");
        if !is_chat && !is_private {
            return None;
        }
        let name: String = match v.get_field("name") {
            Some(f) => match f.as_str() {
                Some(s) => s.clone(),
                None => {
                    return None;
                },
            },
            None => {
                return None;
            },
        };
        let topic: Option<String> = match v.get_field("topic") {
            Some(f) => match f {
                WireValue::Str(s) => Some(s.clone()),
                WireValue::Null => None,
                _ => {
                    return None;
                },
            },
            None => None,
        };
        let muted: Vec<String> = match v.get_field("muted") {
            Some(f) => match f {
                WireValue::Arr(a) => match strings_from_wire(a) {
                    Some(out) => out,
                    None => {
                        return None;
                    },
                },
                _ => {
                    return None;
                },
            },
            None => Vec::new(),
        };
        if is_chat {
            return Some(Room::Chat { id, name, topic, muted, lm: None });
        }
        let ro: bool = match v.get_field("ro") {
            Some(f) => match f {
                WireValue::Bool(b) => *b,
                _ => {
                    return None;
                },
            },
            None => {
                return None;
            },
        };
        Some(Room::Private { id, name, topic, muted, lm: None, ro })
    }
}

/// The short room record a spotlight search returns.
#[derive(Clone, Debug, PartialEq, Eq)]
pub struct ShortRoom {
    pub id: String,
    pub name: String,
}

/// What a spotlight search returns.
#[derive(Clone, Debug, PartialEq, Eq)]
pub struct Spotlight {
    pub users: Vec<ShortUser>,
    pub rooms: Vec<ShortRoom>,
}

/// Extra room information carried beside a room event.
#[derive(Clone, Debug, PartialEq, Eq)]
pub struct RoomExtraInfo {
    pub room_name: Option<String>,
    pub room_participant: bool,
    pub room_type: char,
}

/// An attachment carried in a room event.
#[derive(Clone, Debug, PartialEq, Eq)]
pub struct Attachment {
    pub title: Option<String>,
    pub image_url: Option<String>,
}

/// The message data of a room event.
#[derive(Debug, PartialEq, Eq)]
pub struct RoomEventData {
    pub id: MessageID,
    pub msg: String,
    pub rid: String,
    pub ts: Timestamp,
    pub t: Option<String>,
    pub u: ShortUser,
    pub attachments: Vec<Attachment>,
    pub reactions: Vec<(String, WireValue)>,
}

/// A room event: the message data and the extra room information.
#[derive(Debug, PartialEq, Eq)]
pub struct RoomEvent {
    pub args: (RoomEventData, RoomExtraInfo),
}

/// The exact correspondence between a wire value and a short user.
pub open spec fn spec_short_user_rel(v: WireValue, u: ShortUser) -> bool {
    &&& v matches WireValue::Obj(ms)
    &&& (spec_lookup(ms@, "_id"@) matches Some(WireValue::Str(s)) && u.id == UserID(s))
    &&& spec_req_string(ms@, "username"@, u.username)
    &&& spec_req_string(ms@, "name"@, u.realname)
    &&& match spec_lookup(ms@, "status"@) {
        Some(WireValue::Str(s)) => spec_presence_from_name(s@) matches Some(p) && u.status == Some(
            p,
        ),
        Some(WireValue::Null) => u.status is None,
        Some(_) => false,
        None => u.status is None,
    }
}

/// When a short user can be read from the value.
pub open spec fn spec_short_user_parseable(v: WireValue) -> bool {
    &&& v matches WireValue::Obj(ms)
    &&& (spec_lookup(ms@, "_id"@) matches Some(WireValue::Str(_)))
    &&& (spec_lookup(ms@, "username"@) matches Some(WireValue::Str(_)))
    &&& (spec_lookup(ms@, "name"@) matches Some(WireValue::Str(_)))
    &&& match spec_lookup(ms@, "status"@) {
        Some(WireValue::Str(s)) => spec_presence_from_name(s@) is Some,
        Some(WireValue::Null) => true,
        Some(_) => false,
        None => true,
    }
}

impl ShortUser {
    /// Reads a short user record.
    pub fn from_wire(v: &WireValue) -> (r: Option<ShortUser>)
        ensures
            match r {
                Some(u) => spec_short_user_rel(*v, u) && spec_short_user_parseable(*v),
                None => !spec_short_user_parseable(*v),
            },
    {
        let id: String = match v.get_field("_id") {
            Some(f) => match f.as_str() {
                Some(s) => s.clone(),
                None => {
                    return None;
                },
            },
            None => {
                return None;
            },
        };
        let username: String = match v.get_field("username") {
            Some(f) => match f.as_str() {
                Some(s) => s.clone(),
                None => {
                    return None;
                },
            },
            None => {
                return None;
            },
        };
        let realname: String = match v.get_field("name") {
            Some(f) => match f.as_str() {
                Some(s) => s.clone(),
                None => {
                    return None;
                },
            },
            None => {
                return None;
            },
        };
        let status: Option<Presence> = match v.get_field("status") {
            Some(f) => match f {
                WireValue::Str(s) => match presence_from_name(s) {
                    Some(p) => Some(p),
                    None => {
                        return None;
                    },
                },
                WireValue::Null => None,
                _ => {
                    return None;
                },
            },
            None => None,
        };
        Some(ShortUser { id: UserID(id), username, realname, status })
    }
}

/// The exact correspondence between a wire value and a short room.
pub open spec fn spec_short_room_rel(v: WireValue, r: ShortRoom) -> bool {
    &&& v matches WireValue::Obj(ms)
    &&& spec_req_string(ms@, "_id"@, r.id)
    &&& spec_req_string(ms@, "name"@, r.name)
}

/// When a short room can be read from the value.
pub open spec fn spec_short_room_parseable(v: WireValue) -> bool {
    &&& v matches WireValue::Obj(ms)
    &&& (spec_lookup(ms@, "_id"@) matches Some(WireValue::Str(_)))
    &&& (spec_lookup(ms@, "name"@) matches Some(WireValue::Str(_)))
}

impl ShortRoom {
    /// Reads a short room record.
    pub fn from_wire(v: &WireValue) -> (r: Option<ShortRoom>)
        ensures
            match r {
                Some(sr) => spec_short_room_rel(*v, sr) && spec_short_room_parseable(*v),
                None => !spec_short_room_parseable(*v),
            },
    {
        let id: String = match v.get_field("_id") {
            Some(f) => match f.as_str() {
                Some(s) => s.clone(),
                None => {
                    return None;
                },
            },
            None => {
                return None;
            },
        };
        let name: String = match v.get_field("name") {
            Some(f) => match f.as_str() {
                Some(s) => s.clone(),
                None => {
                    return None;
                },
            },
            None => {
                return None;
            },
        };
        Some(ShortRoom { id, name })
    }
}

/// Element-wise correspondence between an array and short rooms.
pub open spec fn spec_short_rooms_rel(arr: Seq<WireValue>, out: Seq<ShortRoom>) -> bool {
    out.len() == arr.len() && forall|k: int|
        0 <= k < arr.len() ==> spec_short_room_rel(#[trigger] arr[k], out[k])
}

/// Element-wise correspondence between an array and short users.
pub open spec fn spec_short_users_rel(arr: Seq<WireValue>, out: Seq<ShortUser>) -> bool {
    out.len() == arr.len() && forall|k: int|
        0 <= k < arr.len() ==> spec_short_user_rel(#[trigger] arr[k], out[k])
}

/// The exact correspondence between a wire value and a spotlight reply.
pub open spec fn spec_spotlight_rel(v: WireValue, sp: Spotlight) -> bool {
    &&& v matches WireValue::Obj(ms)
    &&& (spec_lookup(ms@, "users"@) matches Some(WireValue::Arr(us)) && spec_short_users_rel(
        us@,
        sp.users@,
    ))
    &&& (spec_lookup(ms@, "rooms"@) matches Some(WireValue::Arr(rs)) && spec_short_rooms_rel(
        rs@,
        sp.rooms@,
    ))
}

/// When a spotlight reply can be read from the value.
pub open spec fn spec_spotlight_parseable(v: WireValue) -> bool {
    &&& v matches WireValue::Obj(ms)
    &&& (spec_lookup(ms@, "users"@) matches Some(WireValue::Arr(us)) && (forall|k: int|
        0 <= k < us@.len() ==> spec_short_user_parseable(#[trigger] us@[k])))
    &&& (spec_lookup(ms@, "rooms"@) matches Some(WireValue::Arr(rs)) && (forall|k: int|
        0 <= k < rs@.len() ==> spec_short_room_parseable(#[trigger] rs@[k])))
}

impl Spotlight {
    /// Reads a spotlight reply.
    pub fn from_wire(v: &WireValue) -> (r: Option<Spotlight>)
        ensures
            match r {
                Some(sp) => spec_spotlight_rel(*v, sp) && spec_spotlight_parseable(*v),
                None => !spec_spotlight_parseable(*v),
            },
    {
        let users: Vec<ShortUser> = match v.get_field("users") {
            Some(f) => match f {
                WireValue::Arr(us) => {
                    let mut out: Vec<ShortUser> = Vec::new();
                    let mut i: usize = 0;
                    while i < us.len()
                        invariant
                            i <= us.len(),
                            out@.len() == i as int,
                            forall|k: int|
                                0 <= k < i ==> spec_short_user_rel(#[trigger] us@[k], out@[k])
                                    && spec_short_user_parseable(us@[k]),
                        decreases us.len() - i,
                    {
                        match ShortUser::from_wire(&us[i]) {
                            Some(u) => {
                                out.push(u);
                            },
                            None => {
                                return None;
                            },
                        }
                        i += 1;
                    }
                    out
                },
                _ => {
                    return None;
                },
            },
            None => {
                return None;
            },
        };
        let rooms: Vec<ShortRoom> = match v.get_field("rooms") {
            Some(f) => match f {
                WireValue::Arr(rs) => {
                    let mut out: Vec<ShortRoom> = Vec::new();
                    let mut i: usize = 0;
                    while i < rs.len()
                        invariant
                            i <= rs.len(),
                            out@.len() == i as int,
                            forall|k: int|
                                0 <= k < i ==> spec_short_room_rel(#[trigger] rs@[k], out@[k])
                                    && spec_short_room_parseable(rs@[k]),
                        decreases rs.len() - i,
                    {
                        match ShortRoom::from_wire(&rs[i]) {
                            Some(sr) => {
                                out.push(sr);
                            },
                            None => {
                                return None;
                            },
                        }
                        i += 1;
                    }
                    out
                },
                _ => {
                    return None;
                },
            },
            None => {
                return None;
            },
        };
        Some(Spotlight { users, rooms })
    }
}

/// The exact correspondence between a wire value and a login reply.
pub open spec fn spec_login_reply_rel(v: WireValue, lr: LoginReply) -> bool {
    &&& v matches WireValue::Obj(ms)
    &&& (spec_lookup(ms@, "id"@) matches Some(WireValue::Str(s)) && lr.id == UserID(s))
    &&& spec_req_string(ms@, "token"@, lr.token)
    &&& (spec_lookup(ms@, "tokenExpires"@) matches Some(te) && spec_timestamp_from_wire(te)
        == Some(lr.token_expires))
}

/// When a login reply can be read from the value.
pub open spec fn spec_login_reply_parseable(v: WireValue) -> bool {
    &&& v matches WireValue::Obj(ms)
    &&& (spec_lookup(ms@, "id"@) matches Some(WireValue::Str(_)))
    &&& (spec_lookup(ms@, "token"@) matches Some(WireValue::Str(_)))
    &&& (spec_lookup(ms@, "tokenExpires"@) matches Some(te) && spec_timestamp_from_wire(te)
        is Some)
}

impl LoginReply {
    /// Reads a login reply.
    pub fn from_wire(v: &WireValue) -> (r: Option<LoginReply>)
        ensures
            match r {
                Some(lr) => spec_login_reply_rel(*v, lr) && spec_login_reply_parseable(*v),
                None => !spec_login_reply_parseable(*v),
            },
    {
        let id: String = match v.get_field("id") {
            Some(f) => match f.as_str() {
                Some(s) => s.clone(),
                None => {
                    return None;
                },
            },
            None => {
                return None;
            },
        };
        let token: String = match v.get_field("token") {
            Some(f) => match f.as_str() {
                Some(s) => s.clone(),
                None => {
                    return None;
                },
            },
            None => {
                return None;
            },
        };
        let token_expires: Timestamp = match v.get_field("tokenExpires") {
            Some(f) => match Timestamp::from_wire(f) {
                Some(t) => t,
                None => {
                    return None;
                },
            },
            None => {
                return None;
            },
        };
        Some(LoginReply { id: UserID(id), token, token_expires })
    }
}

/// The exact correspondence between a wire value and the extra room
/// information.
pub open spec fn spec_room_extra_rel(v: WireValue, info: RoomExtraInfo) -> bool {
    &&& v matches WireValue::Obj(ms)
    &&& spec_opt_string_rel(ms@, "roomName"@, info.room_name)
    &&& (spec_lookup(ms@, "roomParticipant"@) matches Some(WireValue::Bool(b)) && b
        == info.room_participant)
    &&& (spec_lookup(ms@, "roomType"@) matches Some(WireValue::Str(s)) && s@.len() == 1 && s@[0]
        == info.room_type)
}

/// When the extra room information can be read from the value.
pub open spec fn spec_room_extra_parseable(v: WireValue) -> bool {
    &&& v matches WireValue::Obj(ms)
    &&& spec_opt_string_ok(ms@, "roomName"@)
    &&& (spec_lookup(ms@, "roomParticipant"@) matches Some(WireValue::Bool(_)))
    &&& (spec_lookup(ms@, "roomType"@) matches Some(WireValue::Str(s)) && s@.len() == 1)
}

impl RoomExtraInfo {
    /// Reads the extra room information beside a room event.
    pub fn from_wire(v: &WireValue) -> (r: Option<RoomExtraInfo>)
        ensures
            match r {
                Some(info) => spec_room_extra_rel(*v, info) && spec_room_extra_parseable(*v),
                None => !spec_room_extra_parseable(*v),
            },
    {
        let room_name: Option<String> = match v.get_field("roomName") {
            Some(f) => match f {
                WireValue::Str(s) => Some(s.clone()),
                WireValue::Null => None,
                _ => {
                    return None;
                },
            },
            None => None,
        };
        let room_participant: bool = match v.get_field("roomParticipant") {
            Some(f) => match f {
                WireValue::Bool(b) => *b,
                _ => {
                    return None;
                },
            },
            None => {
                return None;
            },
        };
        let room_type: char = match v.get_field("roomType") {
            Some(f) => match f.as_str() {
                Some(s) => {
                    if s.as_str().unicode_len() == 1 {
                        s.as_str().get_char(0)
                    } else {
                        return None;
                    }
                },
                None => {
                    return None;
                },
            },
            None => {
                return None;
            },
        };
        Some(RoomExtraInfo { room_name, room_participant, room_type })
    }
}

/// The exact correspondence between a wire value and an attachment.
pub open spec fn spec_attachment_rel(v: WireValue, a: Attachment) -> bool {
    &&& v matches WireValue::Obj(ms)
    &&& spec_opt_string_rel(ms@, "title"@, a.title)
    &&& spec_opt_string_rel(ms@, "image_url"@, a.image_url)
}

/// When an attachment can be read from the value.
pub open spec fn spec_attachment_parseable(v: WireValue) -> bool {
    &&& v matches WireValue::Obj(ms)
    &&& spec_opt_string_ok(ms@, "title"@)
    &&& spec_opt_string_ok(ms@, "image_url"@)
}

impl Attachment {
    /// Reads an attachment.
    pub fn from_wire(v: &WireValue) -> (r: Option<Attachment>)
        ensures
            match r {
                Some(a) => spec_attachment_rel(*v, a) && spec_attachment_parseable(*v),
                None => !spec_attachment_parseable(*v),
            },
    {
        let is_obj = match v {
            WireValue::Obj(_) => true,
            _ => false,
        };
        if !is_obj {
            return None;
        }
        let title: Option<String> = match v.get_field("title") {
            Some(f) => match f {
                WireValue::Str(s) => Some(s.clone()),
                WireValue::Null => None,
                _ => {
                    return None;
                },
            },
            None => None,
        };
        let image_url: Option<String> = match v.get_field("image_url") {
            Some(f) => match f {
                WireValue::Str(s) => Some(s.clone()),
                WireValue::Null => None,
                _ => {
                    return None;
                },
            },
            None => None,
        };
        Some(Attachment { title, image_url })
    }
}

/// Element-wise correspondence between an array and attachments.
pub open spec fn spec_attachments_rel(arr: Seq<WireValue>, out: Seq<Attachment>) -> bool {
    out.len() == arr.len() && forall|k: int|
        0 <= k < arr.len() ==> spec_attachment_rel(#[trigger] arr[k], out[k])
}

/// The exact correspondence between a wire value and room event data.
/// The reactions member is carried through verbatim.
pub open spec fn spec_room_event_data_rel(v: WireValue, d: RoomEventData) -> bool {
    &&& v matches WireValue::Obj(ms)
    &&& (spec_lookup(ms@, "_id"@) matches Some(WireValue::Str(s)) && d.id == MessageID(s))
    &&& spec_req_string(ms@, "msg"@, d.msg)
    &&& spec_req_string(ms@, "rid"@, d.rid)
    &&& (spec_lookup(ms@, "ts"@) matches Some(tv) && spec_timestamp_from_wire(tv) == Some(d.ts))
    &&& spec_opt_string_rel(ms@, "t"@, d.t)
    &&& (spec_lookup(ms@, "u"@) matches Some(uv) && spec_short_user_rel(uv, d.u))
    &&& match spec_lookup(ms@, "attachments"@) {
        Some(WireValue::Arr(a)) => spec_attachments_rel(a@, d.attachments@),
        Some(_) => false,
        None => d.attachments@.len() == 0,
    }
    &&& match spec_lookup(ms@, "reactions"@) {
        Some(WireValue::Obj(rm)) => d.reactions == rm,
        Some(_) => false,
        None => d.reactions@.len() == 0,
    }
}

/// When room event data can be read from the value.
pub open spec fn spec_room_event_data_parseable(v: WireValue) -> bool {
    &&& v matches WireValue::Obj(ms)
    &&& (spec_lookup(ms@, "_id"@) matches Some(WireValue::Str(_)))
    &&& (spec_lookup(ms@, "msg"@) matches Some(WireValue::Str(_)))
    &&& (spec_lookup(ms@, "rid"@) matches Some(WireValue::Str(_)))
    &&& (spec_lookup(ms@, "ts"@) matches Some(tv) && spec_timestamp_from_wire(tv) is Some)
    &&& spec_opt_string_ok(ms@, "t"@)
    &&& (spec_lookup(ms@, "u"@) matches Some(uv) && spec_short_user_parseable(uv))
    &&& match spec_lookup(ms@, "attachments"@) {
        Some(WireValue::Arr(a)) => forall|k: int|
            0 <= k < a@.len() ==> spec_attachment_parseable(#[trigger] a@[k]),
        Some(_) => false,
        None => true,
    }
    &&& match spec_lookup(ms@, "reactions"@) {
        Some(WireValue::Obj(_)) => true,
        Some(_) => false,
        None => true,
    }
}

impl RoomEventData {
    /// Reads the message data of a room event. The value is consumed:
    /// the reactions keep their wire form.
    pub fn from_wire(v: WireValue) -> (r: Option<RoomEventData>)
        ensures
            match r {
                Some(d) => spec_room_event_data_rel(v, d) && spec_room_event_data_parseable(v),
                None => !spec_room_event_data_parseable(v),
            },
    {
        let id: String = match v.get_field("_id") {
            Some(f) => match f.as_str() {
                Some(s) => s.clone(),
                None => {
                    return None;
                },
            },
            None => {
                return None;
            },
        };
        let msg: String = match v.get_field("msg") {
            Some(f) => match f.as_str() {
                Some(s) => s.clone(),
                None => {
                    return None;
                },
            },
            None => {
                return None;
            },
        };
        let rid: String = match v.get_field("rid") {
            Some(f) => match f.as_str() {
                Some(s) => s.clone(),
                None => {
                    return None;
                },
            },
            None => {
                return None;
            },
        };
        let ts: Timestamp = match v.get_field("ts") {
            Some(f) => match Timestamp::from_wire(f) {
                Some(t) => t,
                None => {
                    return None;
                },
            },
            None => {
                return None;
            },
        };
        let t: Option<String> = match v.get_field("t") {
            Some(f) => match f {
                WireValue::Str(s) => Some(s.clone()),
                WireValue::Null => None,
                _ => {
                    return None;
                },
            },
            None => None,
        };
        let u: ShortUser = match v.get_field("u") {
            Some(f) => match ShortUser::from_wire(f) {
                Some(su) => su,
                None => {
                    return None;
                },
            },
            None => {
                return None;
            },
        };
        let attachments: Vec<Attachment> = match v.get_field("attachments") {
            Some(f) => match f {
                WireValue::Arr(a) => {
                    let mut out: Vec<Attachment> = Vec::new();
                    let mut i: usize = 0;
                    while i < a.len()
                        invariant
                            i <= a.len(),
                            out@.len() == i as int,
                            forall|k: int|
                                0 <= k < i ==> spec_attachment_rel(#[trigger] a@[k], out@[k])
                                    && spec_attachment_parseable(a@[k]),
                        decreases a.len() - i,
                    {
                        match Attachment::from_wire(&a[i]) {
                            Some(att) => {
                                out.push(att);
                            },
                            None => {
                                return None;
                            },
                        }
                        i += 1;
                    }
                    out
                },
                _ => {
                    return None;
                },
            },
            None => Vec::new(),
        };
        let has_reactions = match v.get_field("reactions") {
            Some(f) => match f {
                WireValue::Obj(_) => true,
                _ => {
                    return None;
                },
            },
            None => false,
        };
        let reactions: Vec<(String, WireValue)> = if has_reactions {
            match crate::wire::take_field(v, "reactions") {
                Some(WireValue::Obj(rm)) => rm,
                _ => {
                    return None;
                },
            }
        } else {
            Vec::new()
        };
        Some(RoomEventData { id: MessageID(id), msg, rid, ts, t, u, attachments, reactions })
    }
}

/// The exact correspondence between a wire value and a room event.
pub open spec fn spec_room_event_rel(v: WireValue, e: RoomEvent) -> bool {
    &&& v matches WireValue::Obj(ms)
    &&& (spec_lookup(ms@, "args"@) matches Some(WireValue::Arr(a)) && a@.len() == 2
        && spec_room_event_data_rel(a@[0], e.args.0) && spec_room_extra_rel(a@[1], e.args.1))
}

/// When a room event can be read from the value.
pub open spec fn spec_room_event_parseable(v: WireValue) -> bool {
    &&& v matches WireValue::Obj(ms)
    &&& (spec_lookup(ms@, "args"@) matches Some(WireValue::Arr(a)) && a@.len() == 2
        && spec_room_event_data_parseable(a@[0]) && spec_room_extra_parseable(a@[1]))
}

impl RoomEvent {
    /// Reads a room event: the two-element argument tuple of message
    /// data and extra room information.
    pub fn from_wire(v: WireValue) -> (r: Option<RoomEvent>)
        ensures
            match r {
                Some(e) => spec_room_event_rel(v, e) && spec_room_event_parseable(v),
                None => !spec_room_event_parseable(v),
            },
    {
        match crate::wire::take_field(v, "args") {
            Some(WireValue::Arr(mut a)) => {
                if a.len() != 2 {
                    return None;
                }
                let second = match a.pop() {
                    Some(x) => x,
                    None => {
                        return None;
                    },
                };
                let first = match a.pop() {
                    Some(x) => x,
                    None => {
                        return None;
                    },
                };
                let extra: RoomExtraInfo = match RoomExtraInfo::from_wire(&second) {
                    Some(info) => info,
                    None => {
                        return None;
                    },
                };
                let data: RoomEventData = match RoomEventData::from_wire(first) {
                    Some(d) => d,
                    None => {
                        return None;
                    },
                };
                Some(RoomEvent { args: (data, extra) })
            },
            _ => None,
        }
    }
}

} // verus!
