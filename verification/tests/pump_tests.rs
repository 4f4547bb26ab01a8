use rasta::pump::{Action, CallOutcome, CallRejection, Pump, PumpEvent};
use rasta::wire::WireValue;

fn obj(pairs: Vec<(&str, WireValue)>) -> WireValue {
    WireValue::Obj(pairs.into_iter().map(|(k, v)| (k.to_string(), v)).collect())
}

fn s(text: &str) -> WireValue {
    WireValue::Str(text.to_string())
}

fn handshaken(max_calls: usize) -> Pump {
    let mut pump = Pump::new(max_calls);
    let acts = pump.step(PumpEvent::Frame(obj(vec![("server_id", s("0"))])));
    assert!(acts.is_empty());
    let acts = pump.step(PumpEvent::Frame(obj(vec![
        ("msg", s("connected")),
        ("session", s("sess")),
    ])));
    assert_eq!(
        acts,
        vec![Action::HandshakeComplete { session: "sess".to_string() }]
    );
    pump
}

fn call(method: &str) -> PumpEvent {
    PumpEvent::Call { method: method.to_string(), params: vec![] }
}

fn result_frame(id: &str, value: WireValue) -> PumpEvent {
    PumpEvent::Frame(obj(vec![("msg", s("result")), ("id", s(id)), ("result", value)]))
}

fn sent_frame(acts: &[Action]) -> &WireValue {
    match acts {
        [Action::Send(f)] => f,
        other => panic!("expected exactly one outgoing frame, got {:?}", other),
    }
}

#[test]
fn handshake_in_order_establishes_connection() {
    handshaken(8);
}

#[test]
fn handshake_ack_out_of_order_fails() {
    let mut pump = Pump::new(8);
    // the connected acknowledgment arrives before the version one
    let acts = pump.step(PumpEvent::Frame(obj(vec![
        ("msg", s("connected")),
        ("session", s("x")),
    ])));
    assert_eq!(acts, vec![Action::HandshakeFailed]);
    // the connection never reaches the running phase
    let acts = pump.step(call("rooms/get"));
    assert_eq!(acts, vec![Action::Reject(CallRejection::Closed)]);
}

#[test]
fn handshake_fails_on_early_stream_end() {
    let mut pump = Pump::new(8);
    let acts = pump.step(PumpEvent::Frame(obj(vec![("server_id", s("0"))])));
    assert!(acts.is_empty());
    let acts = pump.step(PumpEvent::TransportClosed);
    assert_eq!(acts, vec![Action::HandshakeFailed]);
}

#[test]
fn ping_is_answered_by_exactly_one_pong() {
    let mut pump = handshaken(8);
    // a call is in flight
    let acts = pump.step(call("whoami"));
    sent_frame(&acts);
    // ping arrives mid-call
    let acts = pump.step(PumpEvent::Frame(obj(vec![("msg", s("ping"))])));
    assert_eq!(acts, vec![Action::Send(obj(vec![("msg", s("pong"))]))]);
    // the in-flight call is unaffected and still resolves
    let acts = pump.step(result_frame("0", s("me")));
    assert_eq!(
        acts,
        vec![Action::Resolve { id: 0, outcome: CallOutcome::Success(s("me")) }]
    );
}

#[test]
fn out_of_order_results_resolve_their_own_calls() {
    let mut pump = handshaken(8);
    let first = pump.step(call("a"));
    let second = pump.step(call("b"));
    // the frames carry ids 0 and 1
    assert_eq!(first[0], Action::Send(obj(vec![
        ("msg", s("method")),
        ("id", s("0")),
        ("method", s("a")),
        ("params", WireValue::Arr(vec![])),
    ])));
    assert_eq!(second[0], Action::Send(obj(vec![
        ("msg", s("method")),
        ("id", s("1")),
        ("method", s("b")),
        ("params", WireValue::Arr(vec![])),
    ])));
    // the server answers id 1 first, then id 0
    let acts = pump.step(result_frame("1", s("for-b")));
    assert_eq!(
        acts,
        vec![Action::Resolve { id: 1, outcome: CallOutcome::Success(s("for-b")) }]
    );
    let acts = pump.step(result_frame("0", s("for-a")));
    assert_eq!(
        acts,
        vec![Action::Resolve { id: 0, outcome: CallOutcome::Success(s("for-a")) }]
    );
}

#[test]
fn error_results_carry_the_server_payload() {
    let mut pump = handshaken(8);
    pump.step(call("a"));
    let acts = pump.step(PumpEvent::Frame(obj(vec![
        ("msg", s("result")),
        ("id", s("0")),
        ("error", WireValue::Bool(true)),
    ])));
    assert_eq!(
        acts,
        vec![Action::Resolve { id: 0, outcome: CallOutcome::Failure(WireValue::Bool(true)) }]
    );
}

#[test]
fn transport_close_resolves_every_outstanding_call_once() {
    let mut pump = handshaken(8);
    pump.step(call("a"));
    pump.step(call("b"));
    pump.step(call("c"));
    let acts = pump.step(PumpEvent::TransportClosed);
    assert_eq!(
        acts,
        vec![
            Action::Resolve { id: 0, outcome: CallOutcome::Closed },
            Action::Resolve { id: 1, outcome: CallOutcome::Closed },
            Action::Resolve { id: 2, outcome: CallOutcome::Closed },
            Action::CloseSink,
        ]
    );
    // afterwards nothing more happens on the dead connection
    let acts = pump.step(PumpEvent::TransportClosed);
    assert!(acts.is_empty());
    let acts = pump.step(call("late"));
    assert_eq!(acts, vec![Action::Reject(CallRejection::Closed)]);
}

#[test]
fn stale_or_unknown_result_is_discarded() {
    let mut pump = handshaken(8);
    pump.step(call("a"));
    // unknown id: no call 5 exists
    let acts = pump.step(result_frame("5", s("x")));
    assert!(acts.is_empty());
    // garbage id text
    let acts = pump.step(result_frame("zzz", s("x")));
    assert!(acts.is_empty());
    // the real answer still lands
    let acts = pump.step(result_frame("0", s("ok")));
    assert_eq!(
        acts,
        vec![Action::Resolve { id: 0, outcome: CallOutcome::Success(s("ok")) }]
    );
    // a second answer for the same, already completed id is discarded
    let acts = pump.step(result_frame("0", s("again")));
    assert!(acts.is_empty());
}

#[test]
fn slot_ids_are_reused_after_completion() {
    let mut pump = handshaken(8);
    pump.step(call("a"));
    pump.step(result_frame("0", s("done")));
    let acts = pump.step(call("b"));
    // the freed id 0 is handed out again
    assert_eq!(acts[0], Action::Send(obj(vec![
        ("msg", s("method")),
        ("id", s("0")),
        ("method", s("b")),
        ("params", WireValue::Arr(vec![])),
    ])));
}

#[test]
fn call_table_exhaustion_rejects_the_call() {
    let mut pump = handshaken(2);
    pump.step(call("a"));
    pump.step(call("b"));
    let acts = pump.step(call("c"));
    assert_eq!(acts, vec![Action::Reject(CallRejection::Exhausted)]);
    // completing one call frees a slot again
    pump.step(result_frame("0", s("done")));
    let acts = pump.step(call("d"));
    assert!(matches!(acts[0], Action::Send(_)));
}

#[test]
fn events_are_delivered_in_arrival_order() {
    let mut pump = handshaken(8);
    pump.step(call("a"));
    let mut delivered: Vec<(String, WireValue)> = Vec::new();
    for n in ["one", "two", "three"] {
        let frame = obj(vec![
            ("msg", s("changed")),
            ("collection", s("st")),
            ("eventName", s(n)),
        ]);
        let acts = pump.step(PumpEvent::Frame(frame));
        for act in acts {
            match act {
                Action::Deliver { name, payload } => delivered.push((name, payload)),
                other => panic!("unexpected action between events: {:?}", other),
            }
        }
    }
    assert_eq!(delivered.len(), 3);
    for (k, n) in ["one", "two", "three"].iter().enumerate() {
        assert_eq!(delivered[k].0, "st");
        match &delivered[k].1 {
            WireValue::Obj(ms) => {
                assert!(ms.iter().any(|(key, v)| key == "eventName" && v == &s(n)));
            }
            other => panic!("payload lost its shape: {:?}", other),
        }
    }
}

#[test]
fn subscribe_writes_a_sub_frame() {
    let mut pump = handshaken(8);
    let acts = pump.step(PumpEvent::Subscribe {
        id: "ROOMID".to_string(),
        name: "stream-room-messages".to_string(),
        params: vec![s("ROOMID"), WireValue::Bool(false)],
    });
    assert_eq!(acts, vec![Action::Send(obj(vec![
        ("msg", s("sub")),
        ("id", s("ROOMID")),
        ("name", s("stream-room-messages")),
        ("params", WireValue::Arr(vec![s("ROOMID"), WireValue::Bool(false)])),
    ]))]);
}

#[test]
fn unrecognized_frames_keep_the_connection_running() {
    let mut pump = handshaken(8);
    pump.step(call("a"));
    let acts = pump.step(PumpEvent::Frame(obj(vec![("msg", s("nosub")), ("id", s("x"))])));
    assert!(acts.is_empty());
    let acts = pump.step(PumpEvent::Frame(WireValue::Int(3)));
    assert!(acts.is_empty());
    // the connection still works
    let acts = pump.step(result_frame("0", s("ok")));
    assert_eq!(
        acts,
        vec![Action::Resolve { id: 0, outcome: CallOutcome::Success(s("ok")) }]
    );
}
