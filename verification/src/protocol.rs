//! The tagged JSON message protocol: outbound frames are built from
//! [`Message`], inbound frames are classified into [`InboundMessage`].
//!
//! Every frame is one JSON object whose `msg` member names the variant.
//! A frame that fits no variant is no error here: the pump logs and
//! discards it, keeping the connection alive.

use vstd::prelude::*;
use crate::wire::{spec_lookup, string_eq, take_field, WireValue};

verus! {

/// Messages the client sends.
#[derive(Debug, PartialEq, Eq)]
pub enum Message {
    Ping,
    Pong,
    /// Version negotiation; must be the first frame on a connection.
    Connect { version: String, support: Vec<String> },
    /// A method call, correlated by `id`.
    Method { id: String, method: String, params: Vec<WireValue> },
    /// A subscription request; `id` is caller-supplied and not correlated.
    Sub { id: String, name: String, params: Vec<WireValue> },
    /// A method outcome; the client never sends one, but the type makes
    /// the codec total and lets tests drive both directions.
    Result(MethodResult),
}

/// A method outcome on the wire: either a result or an error payload,
/// correlated by the decimal string `id`.
#[derive(Debug, PartialEq, Eq)]
pub enum MethodResult {
    Result { id: String, result: WireValue },
    Error { id: String, error: WireValue },
}

/// Messages the server sends, after classification.
#[derive(Debug, PartialEq, Eq)]
pub enum InboundMessage {
    Ping,
    Pong,
    /// The server-version acknowledgment: a frame with a `server_id`
    /// member and no `msg` tag, sent before `connected`.
    VersionAck,
    /// The second handshake acknowledgment.
    Connected { session: String },
    /// The outcome of a method call.
    Result(MethodResult),
    /// A subscription push: `name` is the collection, `payload` the
    /// whole frame, handed on untouched.
    Event { name: String, payload: WireValue },
}

// What decoding yields, as a function of the frame. Classification
// reads the `msg` tag and picks members out of the frame; the strings
// and payloads of the result are the frame's own.
pub open spec fn spec_decode(v: WireValue) -> Option<InboundMessage> {
    match v {
        WireValue::Obj(members) => match spec_lookup(members@, "msg"@) {
            Some(WireValue::Str(tag)) => spec_decode_tagged(v, members@, tag@),
            Some(_) => None,
            None => match spec_lookup(members@, "server_id"@) {
                Some(_) => Some(InboundMessage::VersionAck),
                None => None,
            },
        },
        _ => None,
    }
}

/// Classification of an object frame by its `msg` tag.
pub open spec fn spec_decode_tagged(
    v: WireValue,
    members: Seq<(String, WireValue)>,
    tag: Seq<char>,
) -> Option<InboundMessage> {
    if tag == "ping"@ {
        Some(InboundMessage::Ping)
    } else if tag == "pong"@ {
        Some(InboundMessage::Pong)
    } else if tag == "connected"@ {
        match spec_lookup(members, "session"@) {
            Some(WireValue::Str(session)) => Some(InboundMessage::Connected { session }),
            _ => None,
        }
    } else if tag == "result"@ {
        match spec_lookup(members, "id"@) {
            Some(WireValue::Str(id)) => match spec_lookup(members, "error"@) {
                Some(e) => Some(InboundMessage::Result(MethodResult::Error { id, error: e })),
                None => match spec_lookup(members, "result"@) {
                    Some(r) => Some(
                        InboundMessage::Result(MethodResult::Result { id, result: r }),
                    ),
                    None => None,
                },
            },
            _ => None,
        }
    } else if tag == "added"@ || tag == "changed"@ || tag == "removed"@ {
        match spec_lookup(members, "collection"@) {
            Some(WireValue::Str(name)) => Some(InboundMessage::Event { name, payload: v }),
            _ => None,
        }
    } else {
        None
    }
}

// ---------------------------------------------------------------------
// Outbound frame shapes. Strings the encoder creates (keys, tags) are
// pinned by their character sequences; strings and payloads that flow in
// from the message are pinned by value.
// ---------------------------------------------------------------------

/// A frame that holds nothing but its tag, like ping and pong.
pub open spec fn is_tag_only_frame(f: WireValue, tag: Seq<char>) -> bool {
    &&& f matches WireValue::Obj(ms)
    &&& ms@.len() == 1
    &&& ms@[0].0@ == "msg"@
    &&& ms@[0].1 matches WireValue::Str(t) && t@ == tag
}

/// The handshake request frame.
pub open spec fn is_connect_frame(f: WireValue, version: String, support: Seq<String>) -> bool {
    &&& f matches WireValue::Obj(ms)
    &&& ms@.len() == 3
    &&& ms@[0].0@ == "msg"@
    &&& ms@[0].1 matches WireValue::Str(t) && t@ == "connect"@
    &&& ms@[1].0@ == "version"@ && ms@[1].1 == WireValue::Str(version)
    &&& ms@[2].0@ == "support"@
    &&& ms@[2].1 matches WireValue::Arr(xs) && xs@.len() == support.len() && (forall|k: int|
        0 <= k < support.len() ==> xs@[k] == WireValue::Str(support[k]))
}

/// A method call frame.
pub open spec fn is_method_frame(
    f: WireValue,
    id: String,
    method: String,
    params: Seq<WireValue>,
) -> bool {
    &&& f matches WireValue::Obj(ms)
    &&& ms@.len() == 4
    &&& ms@[0].0@ == "msg"@
    &&& ms@[0].1 matches WireValue::Str(t) && t@ == "method"@
    &&& ms@[1].0@ == "id"@ && ms@[1].1 == WireValue::Str(id)
    &&& ms@[2].0@ == "method"@ && ms@[2].1 == WireValue::Str(method)
    &&& ms@[3].0@ == "params"@
    &&& ms@[3].1 matches WireValue::Arr(ps) && ps@ == params
}

/// A method call frame, with the id pinned by its characters: the pump
/// mints the id string itself, so only its text is determined.
pub open spec fn is_method_frame_v(
    f: WireValue,
    idv: Seq<char>,
    method: String,
    params: Seq<WireValue>,
) -> bool {
    &&& f matches WireValue::Obj(ms)
    &&& ms@.len() == 4
    &&& ms@[0].0@ == "msg"@
    &&& ms@[0].1 matches WireValue::Str(t) && t@ == "method"@
    &&& ms@[1].0@ == "id"@
    &&& ms@[1].1 matches WireValue::Str(s) && s@ == idv
    &&& ms@[2].0@ == "method"@ && ms@[2].1 == WireValue::Str(method)
    &&& ms@[3].0@ == "params"@
    &&& ms@[3].1 matches WireValue::Arr(ps) && ps@ == params
}

/// A subscription request frame.
pub open spec fn is_sub_frame(
    f: WireValue,
    id: String,
    name: String,
    params: Seq<WireValue>,
) -> bool {
    &&& f matches WireValue::Obj(ms)
    &&& ms@.len() == 4
    &&& ms@[0].0@ == "msg"@
    &&& ms@[0].1 matches WireValue::Str(t) && t@ == "sub"@
    &&& ms@[1].0@ == "id"@ && ms@[1].1 == WireValue::Str(id)
    &&& ms@[2].0@ == "name"@ && ms@[2].1 == WireValue::Str(name)
    &&& ms@[3].0@ == "params"@
    &&& ms@[3].1 matches WireValue::Arr(ps) && ps@ == params
}

/// A method outcome frame, result or error variant.
pub open spec fn is_result_frame(f: WireValue, mr: MethodResult) -> bool {
    match mr {
        MethodResult::Result { id, result } => {
            &&& f matches WireValue::Obj(ms)
            &&& ms@.len() == 3
            &&& ms@[0].0@ == "msg"@
            &&& ms@[0].1 matches WireValue::Str(t) && t@ == "result"@
            &&& ms@[1].0@ == "id"@ && ms@[1].1 == WireValue::Str(id)
            &&& ms@[2].0@ == "result"@ && ms@[2].1 == result
        },
        MethodResult::Error { id, error } => {
            &&& f matches WireValue::Obj(ms)
            &&& ms@.len() == 3
            &&& ms@[0].0@ == "msg"@
            &&& ms@[0].1 matches WireValue::Str(t) && t@ == "result"@
            &&& ms@[1].0@ == "id"@ && ms@[1].1 == WireValue::Str(id)
            &&& ms@[2].0@ == "error"@ && ms@[2].1 == error
        },
    }
}

/// The frame shape each message encodes to.
pub open spec fn is_frame_for(f: WireValue, m: Message) -> bool {
    match m {
        Message::Ping => is_tag_only_frame(f, "ping"@),
        Message::Pong => is_tag_only_frame(f, "pong"@),
        Message::Connect { version, support } => is_connect_frame(f, version, support@),
        Message::Method { id, method, params } => is_method_frame(f, id, method, params@),
        Message::Sub { id, name, params } => is_sub_frame(f, id, name, params@),
        Message::Result(mr) => is_result_frame(f, mr),
    }
}

/// Builds the frame a message stands for.
pub fn encode_message(m: Message) -> (f: WireValue)
    ensures
        is_frame_for(f, m),
{
    match m {
        Message::Ping => {
            let mut ms: Vec<(String, WireValue)> = Vec::new();
            ms.push(("msg".to_owned(), WireValue::Str("ping".to_owned())));
            WireValue::Obj(ms)
        },
        Message::Pong => {
            let mut ms: Vec<(String, WireValue)> = Vec::new();
            ms.push(("msg".to_owned(), WireValue::Str("pong".to_owned())));
            WireValue::Obj(ms)
        },
        Message::Connect { version, support } => {
            let mut xs: Vec<WireValue> = Vec::new();
            let mut i: usize = 0;
            while i < support.len()
                invariant
                    i <= support.len(),
                    xs@.len() == i,
                    forall|k: int| 0 <= k < i ==> xs@[k] == WireValue::Str(support@[k]),
                decreases support.len() - i,
            {
                xs.push(WireValue::Str(support[i].clone()));
                i += 1;
            }
            let mut ms: Vec<(String, WireValue)> = Vec::new();
            ms.push(("msg".to_owned(), WireValue::Str("connect".to_owned())));
            ms.push(("version".to_owned(), WireValue::Str(version)));
            ms.push(("support".to_owned(), WireValue::Arr(xs)));
            WireValue::Obj(ms)
        },
        Message::Method { id, method, params } => {
            let mut ms: Vec<(String, WireValue)> = Vec::new();
            ms.push(("msg".to_owned(), WireValue::Str("method".to_owned())));
            ms.push(("id".to_owned(), WireValue::Str(id)));
            ms.push(("method".to_owned(), WireValue::Str(method)));
            ms.push(("params".to_owned(), WireValue::Arr(params)));
            WireValue::Obj(ms)
        },
        Message::Sub { id, name, params } => {
            let mut ms: Vec<(String, WireValue)> = Vec::new();
            ms.push(("msg".to_owned(), WireValue::Str("sub".to_owned())));
            ms.push(("id".to_owned(), WireValue::Str(id)));
            ms.push(("name".to_owned(), WireValue::Str(name)));
            ms.push(("params".to_owned(), WireValue::Arr(params)));
            WireValue::Obj(ms)
        },
        Message::Result(mr) => match mr {
            MethodResult::Result { id, result } => {
                let mut ms: Vec<(String, WireValue)> = Vec::new();
                ms.push(("msg".to_owned(), WireValue::Str("result".to_owned())));
                ms.push(("id".to_owned(), WireValue::Str(id)));
                ms.push(("result".to_owned(), result));
                WireValue::Obj(ms)
            },
            MethodResult::Error { id, error } => {
                let mut ms: Vec<(String, WireValue)> = Vec::new();
                ms.push(("msg".to_owned(), WireValue::Str("result".to_owned())));
                ms.push(("id".to_owned(), WireValue::Str(id)));
                ms.push(("error".to_owned(), error));
                WireValue::Obj(ms)
            },
        },
    }
}

/// Classifies one inbound frame. `None` is a frame the protocol does not
/// know; the caller logs and discards it.
pub fn decode_frame(v: WireValue) -> (r: Option<InboundMessage>)
    ensures
        r == spec_decode(v),
{
    let tag: String = match v.get_field("msg") {
        Some(t) => match t.as_str() {
            Some(s) => s.clone(),
            None => {
                return None;
            },
        },
        None => {
            return match v.get_field("server_id") {
                Some(_) => Some(InboundMessage::VersionAck),
                None => None,
            };
        },
    };
    if string_eq(&tag, "ping") {
        return Some(InboundMessage::Ping);
    }
    if string_eq(&tag, "pong") {
        return Some(InboundMessage::Pong);
    }
    if string_eq(&tag, "connected") {
        return match v.get_field("session") {
            Some(f) => match f.as_str() {
                Some(s) => Some(InboundMessage::Connected { session: s.clone() }),
                None => None,
            },
            None => None,
        };
    }
    if string_eq(&tag, "result") {
        let id: String = match v.get_field("id") {
            Some(f) => match f.as_str() {
                Some(s) => s.clone(),
                None => {
                    return None;
                },
            },
            None => {
                return None;
            },
        };
        let use_error = v.get_field("error").is_some();
        if use_error {
            return match take_field(v, "error") {
                Some(e) => Some(InboundMessage::Result(MethodResult::Error { id, error: e })),
                None => None,
            };
        }
        return match take_field(v, "result") {
            Some(r) => Some(InboundMessage::Result(MethodResult::Result { id, result: r })),
            None => None,
        };
    }
    if string_eq(&tag, "added") || string_eq(&tag, "changed") || string_eq(&tag, "removed") {
        let name: String = match v.get_field("collection") {
            Some(f) => match f.as_str() {
                Some(s) => s.clone(),
                None => {
                    return None;
                },
            },
            None => {
                return None;
            },
        };
        return Some(InboundMessage::Event { name, payload: v });
    }
    None
}


/// The websocket endpoint the protocol is spoken over: a TLS
/// websocket at the `/websocket` path of the host.
pub fn websocket_url(host: &str) -> (r: String)
    ensures
        r@ == "wss://"@ + host@ + "/websocket"@,
{
    let mut url: String = "wss://".to_owned();
    url.append(host);
    url.append("/websocket");
    url
}

/// The handshake request: protocol version one, and one supported
/// version.
pub fn connect_request() -> (r: Message)
    ensures
        r matches Message::Connect { version, support } && version@ == "1"@ && support@.len() == 1
            && support@[0]@ == "1"@,
{
    let mut support: Vec<String> = Vec::new();
    support.push("1".to_owned());
    Message::Connect { version: "1".to_owned(), support }
}

/// Encoding a method outcome and decoding the frame gives the outcome
/// back unchanged, for the result and the error variant alike. Together
/// with the contract of [`encode_message`], this pins the round trip of
/// [`decode_frame`] over [`encode_message`].
pub proof fn lemma_result_round_trip(f: WireValue, mr: MethodResult)
    requires
        is_result_frame(f, mr),
    ensures
        spec_decode(f) == Some(InboundMessage::Result(mr)),
{
    reveal_strlit("msg");
    reveal_strlit("id");
    reveal_strlit("result");
    reveal_strlit("error");
    reveal_strlit("ping");
    reveal_strlit("pong");
    reveal_strlit("connected");
    reveal_strlit("added");
    reveal_strlit("changed");
    reveal_strlit("removed");
    reveal_strlit("server_id");
    reveal_strlit("session");
    reveal_strlit("collection");
    assert("msg"@.len() == 3 && "id"@.len() == 2 && "result"@.len() == 6 && "error"@.len() == 5);
    assert("ping"@.len() == 4 && "pong"@.len() == 4 && "connected"@.len() == 9);
    assert("added"@.len() == 5 && "changed"@.len() == 7 && "removed"@.len() == 7);
    assert("ping"@[0] == 'p' && "pong"@[0] == 'p' && "pong"@[1] == 'o' && "ping"@[1] == 'i');
    assert("result"@[0] == 'r' && "removed"@[0] == 'r' && "error"@[0] == 'e');
    assert("added"@[0] == 'a' && "changed"@[0] == 'c');
    let ms = f->Obj_0@;
    let t1 = ms.drop_first();
    let t2 = t1.drop_first();
    let t3 = t2.drop_first();
    assert(t1[0] == ms[1]);
    assert(t1[1] == ms[2]);
    assert(t2[0] == ms[2]);
    assert(t3.len() == 0);
    assert(spec_lookup(ms, "msg"@) == Some(ms[0].1));
    assert(spec_lookup(ms, "id"@) == spec_lookup(t1, "id"@));
    assert(spec_lookup(t1, "id"@) == Some(ms[1].1));
    match mr {
        MethodResult::Result { id, result } => {
            assert(spec_lookup(ms, "error"@) == spec_lookup(t1, "error"@));
            assert(spec_lookup(t1, "error"@) == spec_lookup(t2, "error"@));
            assert(spec_lookup(t2, "error"@) == spec_lookup(t3, "error"@));
            assert(spec_lookup(t3, "error"@) is None);
            assert(spec_lookup(ms, "result"@) == spec_lookup(t1, "result"@));
            assert(spec_lookup(t1, "result"@) == spec_lookup(t2, "result"@));
            assert(spec_lookup(t2, "result"@) == Some(ms[2].1));
        },
        MethodResult::Error { id, error } => {
            assert(spec_lookup(ms, "error"@) == spec_lookup(t1, "error"@));
            assert(spec_lookup(t1, "error"@) == spec_lookup(t2, "error"@));
            assert(spec_lookup(t2, "error"@) == Some(ms[2].1));
        },
    }
}

} // verus!
