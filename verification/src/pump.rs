//! The message pump: the single state machine that owns the transport.
//!
//! The pump starts in the handshake, then runs for the connection's
//! lifetime: it classifies each inbound frame and routes it to the
//! correlation table, the event sink, or the keep-alive responder, and
//! it serializes outbound calls and subscriptions through the one
//! writer.
//!
//! [`Pump::step`] consumes one [`PumpEvent`] and yields the [`Action`]s
//! the driver must carry out, in order. What a step does is pinned by
//! the relation [`spec_step`] over the model [`PumpModel`]; the laws of
//! the protocol are proved over runs of that relation.

use vstd::prelude::*;
use crate::num::{parse_dec, spec_dec_digits, spec_dec_val, to_dec_string};
use crate::protocol::{
    decode_frame, encode_message, is_method_frame_v, is_sub_frame, is_tag_only_frame, spec_decode,
    InboundMessage, Message, MethodResult,
};
use crate::slots::{spec_alloc, spec_occupied_ids, Slots, SlotsModel};
use crate::wire::WireValue;

verus! {

/// The pump's lifecycle. The handshake reads exactly two frames — the
/// server-version acknowledgment, then the connected acknowledgment —
/// before any RPC traffic may flow.
#[derive(Clone, Copy, Debug, PartialEq, Eq, Structural)]
pub enum Phase {
    /// Waiting for the server-version acknowledgment.
    AwaitVersion,
    /// Waiting for the connected acknowledgment.
    AwaitConnected,
    /// Normal traffic.
    Running,
    /// The transport ended; terminal.
    Closed,
    /// The handshake failed; terminal, no connection is produced.
    Failed,
}

/// What one call resolves to.
#[derive(Debug, PartialEq, Eq)]
pub enum CallOutcome {
    /// The server answered with a result payload.
    Success(WireValue),
    /// The server answered with an error payload.
    Failure(WireValue),
    /// The connection closed while the call was outstanding.
    Closed,
}

/// Why a call was turned away without going on the wire.
#[derive(Clone, Copy, Debug, PartialEq, Eq, Structural)]
pub enum CallRejection {
    /// The correlation table is at its maximum of outstanding calls.
    Exhausted,
    /// The connection is not running.
    Closed,
}

/// What the pump consumes, one at a time.
#[derive(Debug, PartialEq, Eq)]
pub enum PumpEvent {
    /// A frame arrived from the transport.
    Frame(WireValue),
    /// The transport ended or errored.
    TransportClosed,
    /// A caller issues a method call.
    Call { method: String, params: Vec<WireValue> },
    /// A caller registers a subscription; fire-and-forget.
    Subscribe { id: String, name: String, params: Vec<WireValue> },
}

/// What the driver must do after a step, in order.
#[derive(Debug, PartialEq, Eq)]
pub enum Action {
    /// Write this frame to the transport.
    Send(WireValue),
    /// Resolve the call with slot `id` to `outcome`, and free the slot.
    Resolve { id: usize, outcome: CallOutcome },
    /// Hand the event to the event sink; block on backpressure, never drop.
    Deliver { name: String, payload: WireValue },
    /// Close the event sink: no more events will come.
    CloseSink,
    /// The handshake finished; the connection may be handed out.
    HandshakeComplete { session: String },
    /// The handshake failed; no connection is produced.
    HandshakeFailed,
    /// Resolve the call just issued to the rejection, without a slot.
    Reject(CallRejection),
}

/// The actions of a step, in the model: sends are described by their
/// frame shape, everything else is carried verbatim.
pub enum ActionSpec {
    SendPong,
    SendMethod { id: int, method: String, params: Vec<WireValue> },
    SendSub { id: String, name: String, params: Vec<WireValue> },
    Resolve { id: int, outcome: CallOutcome },
    Deliver { name: String, payload: WireValue },
    CloseSink,
    HandshakeComplete { session: String },
    HandshakeFailed,
    Reject(CallRejection),
}

/// Does the executable action `a` perform the model action `s`?
pub open spec fn action_matches(a: Action, s: ActionSpec) -> bool {
    match s {
        ActionSpec::SendPong => a matches Action::Send(f) && is_tag_only_frame(f, "pong"@),
        ActionSpec::SendMethod { id, method, params } => a matches Action::Send(f)
            && is_method_frame_v(f, spec_dec_digits(id), method, params@),
        ActionSpec::SendSub { id, name, params } => a matches Action::Send(f) && is_sub_frame(
            f,
            id,
            name,
            params@,
        ),
        ActionSpec::Resolve { id, outcome } => a matches Action::Resolve { id: i, outcome: o }
            && i as int == id && o == outcome,
        ActionSpec::Deliver { name, payload } => a matches Action::Deliver { name: n, payload: p }
            && n == name && p == payload,
        ActionSpec::CloseSink => a matches Action::CloseSink,
        ActionSpec::HandshakeComplete { session } => a matches Action::HandshakeComplete {
            session: s2,
        } && s2 == session,
        ActionSpec::HandshakeFailed => a matches Action::HandshakeFailed,
        ActionSpec::Reject(r) => a matches Action::Reject(r2) && r2 == r,
    }
}

/// Pointwise matching of an action list against the model's list.
pub open spec fn actions_match(acts: Seq<Action>, specs: Seq<ActionSpec>) -> bool {
    acts.len() == specs.len() && forall|k: int|
        0 <= k < acts.len() ==> action_matches(#[trigger] acts[k], specs[k])
}

/// Mathematical state of the pump.
pub struct PumpModel {
    pub phase: Phase,
    pub slots: SlotsModel,
}

/// The id a method outcome addresses.
pub open spec fn result_id(mr: MethodResult) -> String {
    match mr {
        MethodResult::Result { id, .. } => id,
        MethodResult::Error { id, .. } => id,
    }
}

/// The outcome a method result resolves its call to.
pub open spec fn result_outcome(mr: MethodResult) -> CallOutcome {
    match mr {
        MethodResult::Result { result, .. } => CallOutcome::Success(result),
        MethodResult::Error { error, .. } => CallOutcome::Failure(error),
    }
}

/// One step of the pump on one inbound frame, in the running phase.
pub open spec fn spec_step_frame_running(s: PumpModel, f: WireValue) -> (PumpModel, Seq<
    ActionSpec,
>) {
    match spec_decode(f) {
        Some(InboundMessage::Ping) => (s, seq![ActionSpec::SendPong]),
        Some(InboundMessage::Result(mr)) => {
            match spec_dec_val(result_id(mr)@) {
                Some(n) => if s.slots.occupied(n) {
                    (
                        PumpModel {
                            slots: crate::slots::spec_release(s.slots, n),
                            ..s
                        },
                        seq![ActionSpec::Resolve { id: n, outcome: result_outcome(mr) }],
                    )
                } else {
                    // unknown or already-completed id: a protocol
                    // violation, logged and discarded
                    (s, seq![])
                },
                None => (s, seq![]),
            }
        },
        Some(InboundMessage::Event { name, payload }) => (
            s,
            seq![ActionSpec::Deliver { name, payload }],
        ),
        // pong, stray handshake acks, unknown frames: logged and ignored
        _ => (s, seq![]),
    }
}

/// The transition relation of the pump: state and event in, state and
/// actions out.
pub open spec fn spec_step(s: PumpModel, ev: PumpEvent) -> (PumpModel, Seq<ActionSpec>) {
    match ev {
        PumpEvent::Frame(f) => match s.phase {
            Phase::AwaitVersion => match spec_decode(f) {
                Some(InboundMessage::VersionAck) => (
                    PumpModel { phase: Phase::AwaitConnected, ..s },
                    seq![],
                ),
                _ => (PumpModel { phase: Phase::Failed, ..s }, seq![ActionSpec::HandshakeFailed]),
            },
            Phase::AwaitConnected => match spec_decode(f) {
                Some(InboundMessage::Connected { session }) => (
                    PumpModel { phase: Phase::Running, ..s },
                    seq![ActionSpec::HandshakeComplete { session }],
                ),
                _ => (PumpModel { phase: Phase::Failed, ..s }, seq![ActionSpec::HandshakeFailed]),
            },
            Phase::Running => spec_step_frame_running(s, f),
            _ => (s, seq![]),
        },
        PumpEvent::TransportClosed => match s.phase {
            Phase::AwaitVersion | Phase::AwaitConnected => (
                PumpModel { phase: Phase::Failed, ..s },
                seq![ActionSpec::HandshakeFailed],
            ),
            Phase::Running => {
                let ids = spec_occupied_ids(s.slots.used);
                (
                    PumpModel {
                        phase: Phase::Closed,
                        slots: SlotsModel {
                            used: Seq::new(s.slots.used.len(), |i: int| false),
                            ..s.slots
                        },
                    },
                    Seq::new(
                        ids.len(),
                        |k: int| ActionSpec::Resolve { id: ids[k], outcome: CallOutcome::Closed },
                    ).push(ActionSpec::CloseSink),
                )
            },
            _ => (s, seq![]),
        },
        PumpEvent::Call { method, params } => match s.phase {
            Phase::Running => {
                let (slots2, got) = spec_alloc(s.slots);
                match got {
                    Some(i) => (
                        PumpModel { slots: slots2, ..s },
                        seq![ActionSpec::SendMethod { id: i, method, params }],
                    ),
                    None => (s, seq![ActionSpec::Reject(CallRejection::Exhausted)]),
                }
            },
            _ => (s, seq![ActionSpec::Reject(CallRejection::Closed)]),
        },
        PumpEvent::Subscribe { id, name, params } => match s.phase {
            Phase::Running => (s, seq![ActionSpec::SendSub { id, name, params }]),
            _ => (s, seq![]),
        },
    }
}

/// The pump.
pub struct Pump {
    phase: Phase,
    slots: Slots,
}

impl View for Pump {
    type V = PumpModel;

    closed spec fn view(&self) -> PumpModel {
        PumpModel { phase: self.phase, slots: self.slots@ }
    }
}

impl Pump {
    /// A fresh pump at the start of the handshake, allowing at most
    /// `max_calls` outstanding calls.
    pub fn new(max_calls: usize) -> (r: Pump)
        ensures
            r@.phase == Phase::AwaitVersion,
            r@.slots.used == Seq::<bool>::empty(),
            r@.slots.cap == max_calls as int,
            r@.slots.wf(),
    {
        Pump { phase: Phase::AwaitVersion, slots: Slots::new(max_calls) }
    }

    /// Consumes one event and returns the actions the driver must
    /// perform, in order.
    pub fn step(&mut self, ev: PumpEvent) -> (acts: Vec<Action>)
        requires
            old(self)@.slots.wf(),
        ensures
            final(self)@.slots.wf(),
            final(self)@ == spec_step(old(self)@, ev).0,
            actions_match(acts@, spec_step(old(self)@, ev).1),
    {
        let mut acts: Vec<Action> = Vec::new();
        match ev {
            PumpEvent::Frame(f) => {
                match self.phase {
                    Phase::AwaitVersion => match decode_frame(f) {
                        Some(InboundMessage::VersionAck) => {
                            self.phase = Phase::AwaitConnected;
                        },
                        _ => {
                            self.phase = Phase::Failed;
                            acts.push(Action::HandshakeFailed);
                        },
                    },
                    Phase::AwaitConnected => match decode_frame(f) {
                        Some(InboundMessage::Connected { session }) => {
                            self.phase = Phase::Running;
                            acts.push(Action::HandshakeComplete { session });
                        },
                        _ => {
                            self.phase = Phase::Failed;
                            acts.push(Action::HandshakeFailed);
                        },
                    },
                    Phase::Running => match decode_frame(f) {
                        Some(InboundMessage::Ping) => {
                            acts.push(Action::Send(encode_message(Message::Pong)));
                        },
                        Some(InboundMessage::Result(mr)) => {
                            let (id, outcome) = match mr {
                                MethodResult::Result { id, result } => (
                                    id,
                                    CallOutcome::Success(result),
                                ),
                                MethodResult::Error { id, error } => (
                                    id,
                                    CallOutcome::Failure(error),
                                ),
                            };
                            match parse_dec(id.as_str()) {
                                Some(n) => {
                                    if n <= usize::MAX as u64 {
                                        let i = n as usize;
                                        if self.slots.release(i) {
                                            acts.push(Action::Resolve { id: i, outcome });
                                        }
                                    }
                                },
                                None => {},
                            }
                        },
                        Some(InboundMessage::Event { name, payload }) => {
                            acts.push(Action::Deliver { name, payload });
                        },
                        _ => {},
                    },
                    _ => {},
                }
            },
            PumpEvent::TransportClosed => {
                match self.phase {
                    Phase::AwaitVersion | Phase::AwaitConnected => {
                        self.phase = Phase::Failed;
                        acts.push(Action::HandshakeFailed);
                    },
                    Phase::Running => {
                        self.phase = Phase::Closed;
                        let ids = self.slots.drain();
                        proof {
                            assert forall|j: int|
                                0 <= j < self@.slots.used.len() implies !self@.slots.used[j] by {
                                assert(!self@.slots.occupied(j));
                            }
                            assert(self@.slots.used =~= Seq::new(
                                old(self)@.slots.used.len(),
                                |i: int| false,
                            ));
                        }
                        let ghost spec_ids = spec_occupied_ids(old(self)@.slots.used);
                        let mut k: usize = 0;
                        while k < ids.len()
                            invariant
                                k <= ids.len(),
                                ids@.len() == spec_ids.len(),
                                forall|j: int| 0 <= j < ids@.len() ==> ids@[j] as int == spec_ids[j],
                                acts@.len() == k,
                                forall|j: int|
                                    0 <= j < k ==> action_matches(
                                        #[trigger] acts@[j],
                                        ActionSpec::Resolve {
                                            id: spec_ids[j],
                                            outcome: CallOutcome::Closed,
                                        },
                                    ),
                            decreases ids.len() - k,
                        {
                            acts.push(
                                Action::Resolve { id: ids[k], outcome: CallOutcome::Closed },
                            );
                            k += 1;
                        }
                        acts.push(Action::CloseSink);
                    },
                    _ => {},
                }
            },
            PumpEvent::Call { method, params } => {
                match self.phase {
                    Phase::Running => match self.slots.allocate() {
                        Some(i) => {
                            let id = to_dec_string(i as u64);
                            let ghost idg = id;
                            let ghost methodg = method;
                            let ghost paramsg = params@;
                            let frame = encode_message(Message::Method { id, method, params });
                            proof {
                                assert(is_method_frame_v(frame, spec_dec_digits(i as int), methodg, paramsg));
                            }
                            acts.push(Action::Send(frame));
                        },
                        None => {
                            acts.push(Action::Reject(CallRejection::Exhausted));
                        },
                    },
                    _ => {
                        acts.push(Action::Reject(CallRejection::Closed));
                    },
                }
            },
            PumpEvent::Subscribe { id, name, params } => {
                match self.phase {
                    Phase::Running => {
                        let frame = encode_message(Message::Sub { id, name, params });
                        acts.push(Action::Send(frame));
                    },
                    _ => {},
                }
            },
        }
        acts
    }
}

// ---------------------------------------------------------------------
// Laws of the pump, proved over runs of the transition relation.
// ---------------------------------------------------------------------

/// A run of the pump: the state after consuming `evs` in order, and all
/// the actions emitted along the way, concatenated in order.
pub open spec fn spec_run(s: PumpModel, evs: Seq<PumpEvent>) -> (PumpModel, Seq<ActionSpec>)
    decreases evs.len(),
{
    if evs.len() == 0 {
        (s, Seq::empty())
    } else {
        let first = spec_step(s, evs[0]);
        let rest = spec_run(first.0, evs.drop_first());
        (rest.0, first.1 + rest.1)
    }
}

/// Is `ev` the arrival of a result frame addressed to call `id` with
/// outcome `out`?
pub open spec fn result_event_for(ev: PumpEvent, id: int, out: CallOutcome) -> bool {
    &&& ev matches PumpEvent::Frame(f)
    &&& spec_decode(f) matches Some(im)
    &&& im matches InboundMessage::Result(mr)
    &&& spec_dec_val(result_id(mr)@) == Some(id)
    &&& result_outcome(mr) == out
}

/// A ping is answered by exactly one pong, and nothing else happens:
/// the state — in-flight calls included — is untouched.
pub proof fn lemma_ping_answered(s: PumpModel, f: WireValue)
    requires
        s.phase == Phase::Running,
        spec_decode(f) == Some(InboundMessage::Ping),
    ensures
        spec_step(s, PumpEvent::Frame(f)).0 == s,
        spec_step(s, PumpEvent::Frame(f)).1 == seq![ActionSpec::SendPong],
{
}

/// A result frame whose id is unknown or already completed is discarded:
/// no action is taken and no in-flight call is affected.
pub proof fn lemma_stale_result_discarded(s: PumpModel, f: WireValue, mr: MethodResult)
    requires
        s.phase == Phase::Running,
        spec_decode(f) == Some(InboundMessage::Result(mr)),
        match spec_dec_val(result_id(mr)@) {
            Some(n) => !s.slots.occupied(n),
            None => true,
        },
    ensures
        spec_step(s, PumpEvent::Frame(f)).0 == s,
        spec_step(s, PumpEvent::Frame(f)).1 == Seq::<ActionSpec>::empty(),
{
}

/// When the transport closes with calls outstanding, every outstanding
/// call — and no other — is resolved to the closed outcome exactly once,
/// and the event sink is closed after the resolutions.
pub proof fn lemma_close_resolves_all(s: PumpModel)
    requires
        s.phase == Phase::Running,
    ensures
        ({
            let ids = spec_occupied_ids(s.slots.used);
            let next = spec_step(s, PumpEvent::TransportClosed).0;
            let acts = spec_step(s, PumpEvent::TransportClosed).1;
            &&& next.phase == Phase::Closed
            &&& forall|j: int| !next.slots.occupied(j)
            &&& acts.len() == ids.len() + 1
            &&& forall|k: int|
                0 <= k < ids.len() ==> acts[k] == (ActionSpec::Resolve {
                    id: ids[k],
                    outcome: CallOutcome::Closed,
                })
            &&& acts[ids.len() as int] == ActionSpec::CloseSink
            &&& forall|k: int| 0 <= k < ids.len() ==> s.slots.occupied(#[trigger] ids[k])
            &&& forall|k1: int, k2: int| 0 <= k1 < k2 < ids.len() ==> ids[k1] < ids[k2]
            &&& forall|i: int| s.slots.occupied(i) ==> ids.contains(i)
        }),
{
    crate::slots::lemma_occupied_ids(s.slots.used);
    assert forall|i: int| s.slots.occupied(i) implies spec_occupied_ids(s.slots.used).contains(
        i,
    ) by {
        crate::slots::lemma_occupied_ids(s.slots.used);
    }
}

/// For any set of concurrently outstanding calls with distinct ids,
/// feeding the pump their result frames in any order resolves each call
/// exactly once, to the outcome addressed to its own id; calls whose
/// results have not arrived stay outstanding.
pub proof fn lemma_calls_resolve_exactly_once(
    s: PumpModel,
    evs: Seq<PumpEvent>,
    ids: Seq<int>,
    outs: Seq<CallOutcome>,
)
    requires
        s.phase == Phase::Running,
        evs.len() == ids.len(),
        outs.len() == ids.len(),
        forall|k: int| 0 <= k < evs.len() ==> result_event_for(#[trigger] evs[k], ids[k], outs[k]),
        forall|k1: int, k2: int| 0 <= k1 < k2 < ids.len() ==> ids[k1] != ids[k2],
        forall|k: int| 0 <= k < ids.len() ==> s.slots.occupied(#[trigger] ids[k]),
    ensures
        ({
            let next = spec_run(s, evs).0;
            let acts = spec_run(s, evs).1;
            &&& next.phase == Phase::Running
            &&& acts.len() == evs.len()
            &&& forall|k: int|
                0 <= k < acts.len() ==> acts[k] == (ActionSpec::Resolve {
                    id: ids[k],
                    outcome: outs[k],
                })
            &&& forall|k: int| 0 <= k < ids.len() ==> !next.slots.occupied(#[trigger] ids[k])
            &&& forall|j: int|
                !ids.contains(j) ==> next.slots.occupied(j) == s.slots.occupied(j)
        }),
    decreases evs.len(),
{
    if evs.len() > 0 {
        assert(result_event_for(evs[0], ids[0], outs[0]));
        let s1 = spec_step(s, evs[0]).0;
        let a1 = spec_step(s, evs[0]).1;
        assert(s.slots.occupied(ids[0]));
        assert(a1 == seq![ActionSpec::Resolve { id: ids[0], outcome: outs[0] }]);
        assert(s1.phase == Phase::Running);
        assert(s1.slots == crate::slots::spec_release(s.slots, ids[0]));
        let evs2 = evs.drop_first();
        let ids2 = ids.drop_first();
        let outs2 = outs.drop_first();
        assert forall|k: int| 0 <= k < evs2.len() implies result_event_for(
            #[trigger] evs2[k],
            ids2[k],
            outs2[k],
        ) by {
            assert(evs2[k] == evs[k + 1]);
            assert(ids2[k] == ids[k + 1]);
            assert(outs2[k] == outs[k + 1]);
            assert(result_event_for(evs[k + 1], ids[k + 1], outs[k + 1]));
        }
        assert forall|k: int| 0 <= k < ids2.len() implies s1.slots.occupied(
            #[trigger] ids2[k],
        ) by {
            assert(ids2[k] == ids[k + 1]);
            assert(ids[k + 1] != ids[0]);
            assert(s.slots.occupied(ids[k + 1]));
        }
        assert forall|k1: int, k2: int| 0 <= k1 < k2 < ids2.len() implies ids2[k1] != ids2[k2] by {
            assert(ids2[k1] == ids[k1 + 1]);
            assert(ids2[k2] == ids[k2 + 1]);
        }
        lemma_calls_resolve_exactly_once(s1, evs2, ids2, outs2);
        let next = spec_run(s1, evs2).0;
        let acts2 = spec_run(s1, evs2).1;
        assert(spec_run(s, evs).1 == a1 + acts2);
        assert forall|k: int| 0 <= k < evs.len() implies (a1 + acts2)[k]
            == (ActionSpec::Resolve { id: ids[k], outcome: outs[k] }) by {
            if k == 0 {
                assert((a1 + acts2)[0] == a1[0]);
            } else {
                assert((a1 + acts2)[k] == acts2[k - 1]);
                assert(ids2[k - 1] == ids[k]);
                assert(outs2[k - 1] == outs[k]);
            }
        }
        assert forall|k: int| 0 <= k < ids.len() implies !next.slots.occupied(
            #[trigger] ids[k],
        ) by {
            if k == 0 {
                if ids2.contains(ids[0]) {
                    let w = choose|w: int| 0 <= w < ids2.len() && ids2[w] == ids[0];
                    assert(ids[w + 1] == ids[0]);
                    assert(false);
                }
                assert(!s1.slots.occupied(ids[0]));
            } else {
                assert(ids2[k - 1] == ids[k]);
            }
        }
        assert forall|j: int| !ids.contains(j) implies next.slots.occupied(j)
            == s.slots.occupied(j) by {
            if ids2.contains(j) {
                let w = choose|w: int| 0 <= w < ids2.len() && ids2[w] == j;
                assert(ids[w + 1] == j);
                assert(ids.contains(j));
            }
            assert(j != ids[0]);
        }
    }
}

/// The pairs of event name and payload among the actions, in order.
pub open spec fn delivered(acts: Seq<ActionSpec>) -> Seq<(String, WireValue)>
    decreases acts.len(),
{
    if acts.len() == 0 {
        Seq::empty()
    } else {
        let rest = delivered(acts.drop_first());
        match acts[0] {
            ActionSpec::Deliver { name, payload } => seq![(name, payload)] + rest,
            _ => rest,
        }
    }
}

/// The event frames among the inbound events, in arrival order.
pub open spec fn event_frames(evs: Seq<PumpEvent>) -> Seq<(String, WireValue)>
    decreases evs.len(),
{
    if evs.len() == 0 {
        Seq::empty()
    } else {
        let rest = event_frames(evs.drop_first());
        match evs[0] {
            PumpEvent::Frame(f) => match spec_decode(f) {
                Some(InboundMessage::Event { name, payload }) => seq![(name, payload)] + rest,
                _ => rest,
            },
            _ => rest,
        }
    }
}

/// Delivery on an empty or one-action list, written out.
proof fn lemma_delivered_small(acts: Seq<ActionSpec>)
    ensures
        acts.len() == 0 ==> delivered(acts) == Seq::<(String, WireValue)>::empty(),
        acts.len() == 1 ==> delivered(acts) == (match acts[0] {
            ActionSpec::Deliver { name, payload } => seq![(name, payload)],
            _ => Seq::<(String, WireValue)>::empty(),
        }),
{
    if acts.len() == 1 {
        let tail = acts.drop_first();
        assert(tail.len() == 0);
        assert(delivered(tail) == Seq::<(String, WireValue)>::empty());
        match acts[0] {
            ActionSpec::Deliver { name, payload } => {
                assert(delivered(acts) =~= seq![(name, payload)]);
            },
            _ => {},
        }
    }
}

/// Delivery distributes over concatenation of action lists.
proof fn lemma_delivered_concat(a: Seq<ActionSpec>, b: Seq<ActionSpec>)
    ensures
        delivered(a + b) == delivered(a) + delivered(b),
    decreases a.len(),
{
    if a.len() == 0 {
        assert(a + b =~= b);
        assert(delivered(a) + delivered(b) =~= delivered(b));
    } else {
        assert((a + b).drop_first() =~= a.drop_first() + b);
        lemma_delivered_concat(a.drop_first(), b);
        match a[0] {
            ActionSpec::Deliver { name, payload } => {
                assert(delivered(a + b) =~= seq![(name, payload)] + (delivered(a.drop_first())
                    + delivered(b)));
                assert(delivered(a) + delivered(b) =~= (seq![(name, payload)] + delivered(
                    a.drop_first(),
                )) + delivered(b));
            },
            _ => {},
        }
    }
}

/// While the transport stays up, event frames are delivered to the sink
/// exactly once each, in the order they arrived, whatever calls and
/// subscriptions run concurrently.
pub proof fn lemma_events_delivered_in_order(s: PumpModel, evs: Seq<PumpEvent>)
    requires
        s.phase == Phase::Running,
        forall|k: int|
            0 <= k < evs.len() ==> !(#[trigger] evs[k] matches PumpEvent::TransportClosed),
    ensures
        delivered(spec_run(s, evs).1) == event_frames(evs),
        spec_run(s, evs).0.phase == Phase::Running,
    decreases evs.len(),
{
    if evs.len() > 0 {
        assert(!(evs[0] matches PumpEvent::TransportClosed));
        let s1 = spec_step(s, evs[0]).0;
        let a1 = spec_step(s, evs[0]).1;
        assert(s1.phase == Phase::Running);
        assert forall|k: int| 0 <= k < evs.drop_first().len() implies !(#[trigger] evs.drop_first()[k]
            matches PumpEvent::TransportClosed) by {
            assert(evs.drop_first()[k] == evs[k + 1]);
        }
        lemma_events_delivered_in_order(s1, evs.drop_first());
        lemma_delivered_concat(a1, spec_run(s1, evs.drop_first()).1);
        assert(delivered(a1) == event_frames(seq![evs[0]])) by {
            lemma_delivered_small(a1);
            assert(seq![evs[0]].drop_first() =~= Seq::<PumpEvent>::empty());
            assert(event_frames(Seq::<PumpEvent>::empty()) == Seq::<(String, WireValue)>::empty());
            match evs[0] {
                PumpEvent::Frame(f) => {
                    match spec_decode(f) {
                        Some(InboundMessage::Event { name, payload }) => {
                            assert(a1 == seq![ActionSpec::Deliver { name, payload }]);
                            assert(event_frames(seq![evs[0]]) =~= seq![(name, payload)]);
                        },
                        _ => {
                            assert(a1.len() <= 1);
                        },
                    }
                },
                _ => {
                    assert(a1.len() <= 1);
                },
            }
        }
        assert(event_frames(evs) == event_frames(seq![evs[0]]) + event_frames(evs.drop_first()))
            by {
            assert(seq![evs[0]].drop_first() =~= Seq::<PumpEvent>::empty());
            assert(event_frames(Seq::<PumpEvent>::empty()) == Seq::<(String, WireValue)>::empty());
            let tail = event_frames(evs.drop_first());
            match evs[0] {
                PumpEvent::Frame(f) => match spec_decode(f) {
                    Some(InboundMessage::Event { name, payload }) => {
                        assert(event_frames(seq![evs[0]]) =~= seq![(name, payload)]);
                        assert(event_frames(evs) =~= seq![(name, payload)] + tail);
                        assert(seq![(name, payload)] + tail =~= event_frames(seq![evs[0]]) + tail);
                    },
                    _ => {
                        assert(event_frames(seq![evs[0]]) =~= Seq::<(String, WireValue)>::empty());
                        assert(event_frames(evs) == tail);
                        assert(Seq::<(String, WireValue)>::empty() + tail =~= tail);
                    },
                },
                _ => {
                    assert(event_frames(seq![evs[0]]) =~= Seq::<(String, WireValue)>::empty());
                    assert(event_frames(evs) == tail);
                    assert(Seq::<(String, WireValue)>::empty() + tail =~= tail);
                },
            }
        }
    }
}

/// How many pongs an action list sends.
pub open spec fn count_pongs(acts: Seq<ActionSpec>) -> int
    decreases acts.len(),
{
    if acts.len() == 0 {
        0
    } else {
        (if acts[0] is SendPong {
            1int
        } else {
            0int
        }) + count_pongs(acts.drop_first())
    }
}

/// How many of the events are arriving ping frames.
pub open spec fn count_pings(evs: Seq<PumpEvent>) -> int
    decreases evs.len(),
{
    if evs.len() == 0 {
        0
    } else {
        (match evs[0] {
            PumpEvent::Frame(f) => if spec_decode(f) == Some(InboundMessage::Ping) {
                1int
            } else {
                0int
            },
            _ => 0int,
        }) + count_pings(evs.drop_first())
    }
}

/// Pong counting distributes over concatenation.
proof fn lemma_count_pongs_concat(a: Seq<ActionSpec>, b: Seq<ActionSpec>)
    ensures
        count_pongs(a + b) == count_pongs(a) + count_pongs(b),
    decreases a.len(),
{
    if a.len() == 0 {
        assert(a + b =~= b);
    } else {
        assert((a + b).drop_first() =~= a.drop_first() + b);
        lemma_count_pongs_concat(a.drop_first(), b);
    }
}

/// Pong counting on an empty or one-action list, written out.
proof fn lemma_count_pongs_small(acts: Seq<ActionSpec>)
    ensures
        acts.len() == 0 ==> count_pongs(acts) == 0,
        acts.len() == 1 ==> count_pongs(acts) == (if acts[0] is SendPong {
            1int
        } else {
            0int
        }),
{
    if acts.len() == 1 {
        assert(count_pongs(acts.drop_first()) == 0);
    }
}

/// While the transport stays up, the pump answers every ping with
/// exactly one pong — no more, no fewer — whatever calls, results,
/// events and subscriptions arrive in between.
pub proof fn lemma_pings_answered_one_for_one(s: PumpModel, evs: Seq<PumpEvent>)
    requires
        s.phase == Phase::Running,
        forall|k: int|
            0 <= k < evs.len() ==> !(#[trigger] evs[k] matches PumpEvent::TransportClosed),
    ensures
        count_pongs(spec_run(s, evs).1) == count_pings(evs),
    decreases evs.len(),
{
    if evs.len() > 0 {
        assert(!(evs[0] matches PumpEvent::TransportClosed));
        let s1 = spec_step(s, evs[0]).0;
        let a1 = spec_step(s, evs[0]).1;
        assert(s1.phase == Phase::Running);
        assert forall|k: int| 0 <= k < evs.drop_first().len() implies !(#[trigger] evs.drop_first()[k]
            matches PumpEvent::TransportClosed) by {
            assert(evs.drop_first()[k] == evs[k + 1]);
        }
        lemma_pings_answered_one_for_one(s1, evs.drop_first());
        lemma_count_pongs_concat(a1, spec_run(s1, evs.drop_first()).1);
        lemma_count_pongs_small(a1);
        assert(count_pongs(a1) == (match evs[0] {
            PumpEvent::Frame(f) => if spec_decode(f) == Some(InboundMessage::Ping) {
                1int
            } else {
                0int
            },
            _ => 0int,
        }));
    }
}

} // verus!
