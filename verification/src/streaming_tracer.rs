//! The broker-streaming sinks: the publisher that derives a payload from
//! each paired enter/exit event and queues it for a fanout exchange, and
//! the no-op placeholder sink.
//!
//! The publisher owns no network handle itself: it is a state machine.
//! Construction puts it in `Connecting`; the caller performs each pending
//! bootstrap step (establish the connection and channel, declare the
//! exchange, publish the diagnostic ping) and reports the outcome with
//! `step_ok` / `step_failed`. Any step's failure leaves the publisher
//! `Disconnected` for the rest of its lifetime: no reconnect is attempted,
//! every later publish is skipped and counted, and no failure ever
//! propagates to the engine. Payloads to publish are queued in arrival
//! order and handed out by `take_outgoing`; a failed publish of a taken
//! payload is the caller's to log, and the publisher stays usable
//! (log-and-continue policy).
//!
//! The enter-event buffer is a single slot, not a stack: a nested enter
//! that arrives before its parent frame's exit overwrites the parent's
//! buffered parameters, so the parent's exit publishes the nested frame's
//! parameters. This depth-unaware buffering is kept as a documented
//! limitation of the publisher.

use vstd::prelude::*;
use crate::payload::MqStreamingPayload;
use crate::payload::PayloadView;
use crate::payload::call_exit_payload;
use crate::payload::create_exit_payload;
use crate::payload::failed_exit_payload;
use crate::payload::reward_payload;
use crate::payload::suicide_payload;
use crate::sink::Event;
use crate::sink::FlatTrace;
use crate::sink::Tracer;
use crate::types::ActionParams;
use crate::types::Address;
use crate::types::ParamsView;
use crate::types::RewardType;
use crate::types::U256;
use crate::types::VmError;

verus! {

/// How far the publisher's bootstrap has come. Every failure path ends in
/// `Disconnected`, which is terminal for the sink's lifetime.
#[derive(Clone, Copy, Debug, PartialEq, Eq, Structural)]
pub enum ConnState {
    Disconnected,
    Connecting,
    ChannelOpen,
    ExchangeDeclared,
    Ready,
}

/// The outside work the caller must perform next to move the bootstrap
/// forward.
#[derive(Clone, Copy, Debug, PartialEq, Eq, Structural)]
pub enum BootstrapStep {
    /// Connect to the broker address and open a channel.
    EstablishChannel,
    /// Declare the fanout exchange on the open channel.
    DeclareExchange,
    /// Publish the fixed diagnostic ping through the declared exchange.
    PublishPing,
}

/// The step pending in a bootstrap state, if any: none is pending once the
/// publisher is `Ready` or `Disconnected`.
pub open spec fn pending_step(s: ConnState) -> Option<BootstrapStep> {
    match s {
        ConnState::Connecting => Some(BootstrapStep::EstablishChannel),
        ConnState::ChannelOpen => Some(BootstrapStep::DeclareExchange),
        ConnState::ExchangeDeclared => Some(BootstrapStep::PublishPing),
        ConnState::Disconnected => None,
        ConnState::Ready => None,
    }
}

/// The state reached when the pending step succeeds.
pub open spec fn advanced(s: ConnState) -> ConnState {
    match s {
        ConnState::Connecting => ConnState::ChannelOpen,
        ConnState::ChannelOpen => ConnState::ExchangeDeclared,
        ConnState::ExchangeDeclared => ConnState::Ready,
        ConnState::Disconnected => ConnState::Disconnected,
        ConnState::Ready => ConnState::Ready,
    }
}

/// The mathematical content of the publisher.
pub ghost struct MqView {
    /// The broker address the publisher was configured with.
    pub address: Seq<char>,
    pub state: ConnState,
    /// The single-slot enter-event buffer.
    pub buffer: Option<ParamsView>,
    /// Payloads queued for publishing, oldest first.
    pub outgoing: Seq<PayloadView>,
    /// Exit events that found the buffer empty (each logged and dropped).
    pub buffer_misses: nat,
    /// Publishes skipped because the publisher was not `Ready`.
    pub skipped_publishes: nat,
    /// Every event received, in arrival order.
    pub history: Seq<Event>,
}

/// The buffer after one event: every enter overwrites it, every exit
/// consumes it, standalone events leave it alone.
pub open spec fn mq_buffer_after(b: Option<ParamsView>, e: Event) -> Option<ParamsView> {
    match e {
        Event::EnterCall { params, .. } => Some(params),
        Event::EnterCreate { params } => Some(params),
        Event::ExitCall { .. } => None,
        Event::ExitCreate { .. } => None,
        Event::ExitFailed { .. } => None,
        Event::SelfDestruct { .. } => b,
        Event::Reward { .. } => b,
    }
}

/// Whether the event asks for a publish at all: an exit event does iff the
/// buffer holds its enter's parameters; standalone events always do.
pub open spec fn mq_wants_publish(pre: MqView, e: Event) -> bool {
    match e {
        Event::EnterCall { .. } => false,
        Event::EnterCreate { .. } => false,
        Event::ExitCall { .. } => pre.buffer is Some,
        Event::ExitCreate { .. } => pre.buffer is Some,
        Event::ExitFailed { .. } => pre.buffer is Some,
        Event::SelfDestruct { .. } => true,
        Event::Reward { .. } => true,
    }
}

/// The payload the event asks to publish, assuming it asks for one.
pub open spec fn mq_payload(pre: MqView, e: Event) -> PayloadView {
    match e {
        Event::ExitCall { gas_used, output } => call_exit_payload(
            pre.buffer->Some_0,
            gas_used,
            output,
        ),
        Event::ExitCreate { gas_used, address, .. } => create_exit_payload(
            pre.buffer->Some_0,
            gas_used,
            address,
        ),
        Event::ExitFailed { .. } => failed_exit_payload(pre.buffer->Some_0),
        Event::SelfDestruct { address, balance, refund_address } => suicide_payload(
            address,
            balance,
            refund_address,
        ),
        Event::Reward { author, value, reward_type } => reward_payload(author, value, reward_type),
        _ => crate::payload::default_payload(),
    }
}

/// What the event appends to the outgoing queue: its payload when it asks
/// for a publish and the publisher is `Ready`, nothing otherwise.
pub open spec fn mq_emitted(pre: MqView, e: Event) -> Seq<PayloadView> {
    if mq_wants_publish(pre, e) && pre.state == ConnState::Ready {
        seq![mq_payload(pre, e)]
    } else {
        Seq::empty()
    }
}

/// Whether the event is an exit that found the buffer empty: a buffer
/// miss, logged and dropped.
pub open spec fn mq_misses(pre: MqView, e: Event) -> bool {
    match e {
        Event::ExitCall { .. } => pre.buffer is None,
        Event::ExitCreate { .. } => pre.buffer is None,
        Event::ExitFailed { .. } => pre.buffer is None,
        _ => false,
    }
}

/// Whether the event's publish is skipped because the publisher is not
/// `Ready`.
pub open spec fn mq_skips(pre: MqView, e: Event) -> bool {
    mq_wants_publish(pre, e) && pre.state != ConnState::Ready
}

/// A diagnostics counter's increment, saturating at its limit.
pub open spec fn sat_inc(c: nat) -> nat {
    if c >= u64::MAX {
        c
    } else {
        c + 1
    }
}

/// The publisher after receiving one event: the whole per-event behavior
/// as a function of the previous state and the event.
pub open spec fn mq_step(pre: MqView, e: Event) -> MqView {
    MqView {
        address: pre.address,
        state: pre.state,
        buffer: mq_buffer_after(pre.buffer, e),
        outgoing: pre.outgoing + mq_emitted(pre, e),
        buffer_misses: if mq_misses(pre, e) {
            sat_inc(pre.buffer_misses)
        } else {
            pre.buffer_misses
        },
        skipped_publishes: if mq_skips(pre, e) {
            sat_inc(pre.skipped_publishes)
        } else {
            pre.skipped_publishes
        },
        history: pre.history.push(e),
    }
}

/// Law: no trace event moves the connection state; once the bootstrap has
/// left the publisher short of `Ready` — in particular `Disconnected`
/// after a failed step — every publish a later event asks for is skipped,
/// the queue never grows, and the skip is counted as the logged
/// diagnostic. Nothing is raised past the publisher.
pub proof fn lemma_not_ready_publishes_nothing(pre: MqView, e: Event)
    requires
        pre.state != ConnState::Ready,
    ensures
        mq_step(pre, e).state == pre.state,
        mq_step(pre, e).outgoing == pre.outgoing,
        mq_wants_publish(pre, e) ==> mq_step(pre, e).skipped_publishes == sat_inc(
            pre.skipped_publishes,
        ),
{
    assert(mq_step(pre, e).outgoing =~= pre.outgoing);
}

/// Law: no trace event, in any connection state, changes the configured
/// address or the connection state: only the bootstrap steps do.
pub proof fn lemma_events_keep_connection_state(pre: MqView, e: Event)
    ensures
        mq_step(pre, e).state == pre.state,
        mq_step(pre, e).address == pre.address,
{
}

/// The broker-streaming publisher. It decides, per event, what payload to
/// queue; the caller moves queued payloads to the broker and drives the
/// bootstrap steps.
pub struct MqStreamingTracer {
    pub address: String,
    pub state: ConnState,
    pub last_action_params: Option<ActionParams>,
    pub outgoing: Vec<MqStreamingPayload>,
    pub buffer_misses: u64,
    pub skipped_publishes: u64,
    pub history: Ghost<Seq<Event>>,
}

impl View for MqStreamingTracer {
    type V = MqView;

    open spec fn view(&self) -> MqView {
        MqView {
            address: self.address@,
            state: self.state,
            buffer: match self.last_action_params {
                Some(p) => Some(p@),
                None => None,
            },
            outgoing: self.outgoing@.map_values(|p: MqStreamingPayload| p@),
            buffer_misses: self.buffer_misses as nat,
            skipped_publishes: self.skipped_publishes as nat,
            history: self.history@,
        }
    }
}

impl Default for MqStreamingTracer {
    /// An inert publisher: permanently `Disconnected`, with no configured
    /// address, so every publish it is asked for is skipped and counted.
    fn default() -> (r: MqStreamingTracer)
        ensures
            r@ == (MqView {
                address: Seq::empty(),
                state: ConnState::Disconnected,
                buffer: None,
                outgoing: Seq::empty(),
                buffer_misses: 0,
                skipped_publishes: 0,
                history: Seq::empty(),
            }),
    {
        let r = MqStreamingTracer {
            address: String::new(),
            state: ConnState::Disconnected,
            last_action_params: None,
            outgoing: Vec::new(),
            buffer_misses: 0,
            skipped_publishes: 0,
            history: Ghost(Seq::empty()),
        };
        proof {
            assert(r@.outgoing =~= Seq::<PayloadView>::empty());
        }
        r
    }
}

/// The name of the fanout exchange the publisher's payloads are for.
pub fn exchange_name() -> (r: &'static str)
    ensures
        r@ == "MqStreamingTracer"@,
{
    "MqStreamingTracer"
}

impl MqStreamingTracer {
    /// Constructs a publisher for the given broker address, with the
    /// bootstrap just begun: no buffered parameters, an empty queue, and
    /// clear diagnostics counters.
    pub fn create(address: String) -> (r: MqStreamingTracer)
        ensures
            r@ == (MqView {
                address: address@,
                state: ConnState::Connecting,
                buffer: None,
                outgoing: Seq::empty(),
                buffer_misses: 0,
                skipped_publishes: 0,
                history: Seq::empty(),
            }),
    {
        let r = MqStreamingTracer {
            address,
            state: ConnState::Connecting,
            last_action_params: None,
            outgoing: Vec::new(),
            buffer_misses: 0,
            skipped_publishes: 0,
            history: Ghost(Seq::empty()),
        };
        proof {
            assert(r@.outgoing =~= Seq::<PayloadView>::empty());
        }
        r
    }

    /// The bootstrap step the caller must perform next, or nothing once
    /// the publisher is `Ready` or `Disconnected`.
    pub fn next_step(&self) -> (r: Option<BootstrapStep>)
        ensures
            r == pending_step(self@.state),
    {
        match self.state {
            ConnState::Connecting => Some(BootstrapStep::EstablishChannel),
            ConnState::ChannelOpen => Some(BootstrapStep::DeclareExchange),
            ConnState::ExchangeDeclared => Some(BootstrapStep::PublishPing),
            ConnState::Disconnected => None,
            ConnState::Ready => None,
        }
    }

    /// The pending bootstrap step succeeded: move one state forward.
    pub fn step_ok(&mut self)
        requires
            pending_step(old(self)@.state) is Some,
        ensures
            final(self)@ == (MqView { state: advanced(old(self)@.state), ..old(self)@ }),
    {
        self.state = match self.state {
            ConnState::Connecting => ConnState::ChannelOpen,
            ConnState::ChannelOpen => ConnState::ExchangeDeclared,
            ConnState::ExchangeDeclared => ConnState::Ready,
            ConnState::Disconnected => ConnState::Disconnected,
            ConnState::Ready => ConnState::Ready,
        };
    }

    /// The pending bootstrap step failed: the publisher degrades to
    /// `Disconnected` for the rest of its lifetime.
    pub fn step_failed(&mut self)
        requires
            pending_step(old(self)@.state) is Some,
        ensures
            final(self)@ == (MqView { state: ConnState::Disconnected, ..old(self)@ }),
    {
        self.state = ConnState::Disconnected;
    }

    /// Whether the bootstrap reached `Ready`, so publishes are queued
    /// rather than skipped.
    pub fn is_ready(&self) -> (r: bool)
        ensures
            r == (self@.state == ConnState::Ready),
    {
        self.state == ConnState::Ready
    }

    /// Hands out the queued payloads, oldest first, leaving the queue
    /// empty. The caller publishes them; a publish failure is logged by
    /// the caller and does not change the publisher (log-and-continue).
    pub fn take_outgoing(&mut self) -> (r: Vec<MqStreamingPayload>)
        ensures
            r@.map_values(|p: MqStreamingPayload| p@) == old(self)@.outgoing,
            final(self)@ == (MqView { outgoing: Seq::empty(), ..old(self)@ }),
    {
        let mut r: Vec<MqStreamingPayload> = Vec::new();
        core::mem::swap(&mut r, &mut self.outgoing);
        proof {
            assert(self@.outgoing =~= Seq::<PayloadView>::empty());
        }
        r
    }

    /// Queues the payload when the publisher is `Ready`; otherwise skips
    /// it, counting the skip as the logged diagnostic.
    fn post_to_channel(&mut self, payload: MqStreamingPayload)
        ensures
            final(self)@ == (MqView {
                outgoing: if old(self)@.state == ConnState::Ready {
                    old(self)@.outgoing.push(payload@)
                } else {
                    old(self)@.outgoing
                },
                skipped_publishes: if old(self)@.state != ConnState::Ready {
                    sat_inc(old(self)@.skipped_publishes)
                } else {
                    old(self)@.skipped_publishes
                },
                ..old(self)@
            }),
    {
        if self.state == ConnState::Ready {
            self.outgoing.push(payload);
            proof {
                assert(self@.outgoing =~= old(self)@.outgoing.push(payload@));
            }
        } else {
            if self.skipped_publishes < u64::MAX {
                self.skipped_publishes = self.skipped_publishes + 1;
            }
        }
    }

    /// Counts an exit event that found the buffer empty.
    fn note_buffer_miss(&mut self)
        ensures
            final(self)@ == (MqView {
                buffer_misses: sat_inc(old(self)@.buffer_misses),
                ..old(self)@
            }),
    {
        if self.buffer_misses < u64::MAX {
            self.buffer_misses = self.buffer_misses + 1;
        }
    }
}

impl Tracer for MqStreamingTracer {
    open spec fn events(&self) -> Seq<Event> {
        self@.history
    }

    open spec fn inv(&self) -> bool {
        true
    }

    /// Receiving `e` moves the publisher exactly as `mq_step` says: the
    /// buffer is overwritten or consumed, the derived payload is queued
    /// when `Ready`, and the diagnostics counters record misses and skips.
    open spec fn stepped(&self, pre: &Self, e: Event) -> bool {
        self@ == mq_step(pre@, e)
    }

    /// The publisher contributes nothing to the flattened trace.
    open spec fn drained(&self, r: Seq<FlatTrace>) -> bool {
        r == Seq::<FlatTrace>::empty()
    }

    fn prepare_trace_call(&mut self, params: &ActionParams, depth: usize, is_builtin: bool) {
        let ghost e = Event::EnterCall { params: params@, depth: depth as nat, is_builtin };
        self.last_action_params = Some(params.clone());
        self.history = Ghost(self.history@.push(e));
        proof {
            assert(self@.outgoing =~= old(self)@.outgoing + mq_emitted(old(self)@, e));
        }
    }

    fn prepare_trace_create(&mut self, params: &ActionParams) {
        let ghost e = Event::EnterCreate { params: params@ };
        self.last_action_params = Some(params.clone());
        self.history = Ghost(self.history@.push(e));
        proof {
            assert(self@.outgoing =~= old(self)@.outgoing + mq_emitted(old(self)@, e));
        }
    }

    fn done_trace_call(&mut self, gas_used: U256, output: &[u8]) {
        let ghost e = Event::ExitCall { gas_used: gas_used@, output: output@ };
        let buffered = self.last_action_params.take();
        match buffered {
            Some(p) => {
                let mut payload = MqStreamingPayload::from(p);
                payload.gas_used = gas_used;
                payload.output_data = Some(vstd::slice::slice_to_vec(output));
                self.post_to_channel(payload);
            },
            None => {
                self.note_buffer_miss();
            },
        }
        self.history = Ghost(self.history@.push(e));
        proof {
            assert(self@.outgoing =~= mq_step(old(self)@, e).outgoing);
            assert(self@ == mq_step(old(self)@, e));
        }
    }

    fn done_trace_create(&mut self, gas_used: U256, code: &[u8], address: Address) {
        let ghost e = Event::ExitCreate { gas_used: gas_used@, code: code@, address: address@ };
        let buffered = self.last_action_params.take();
        match buffered {
            Some(p) => {
                let mut payload = MqStreamingPayload::from(p);
                payload.gas_used = gas_used;
                payload.code_address = address;
                self.post_to_channel(payload);
            },
            None => {
                self.note_buffer_miss();
            },
        }
        self.history = Ghost(self.history@.push(e));
        proof {
            assert(self@.outgoing =~= mq_step(old(self)@, e).outgoing);
            assert(self@ == mq_step(old(self)@, e));
        }
    }

    fn done_trace_failed(&mut self, error: &VmError) {
        let ghost e = Event::ExitFailed { error: *error };
        let buffered = self.last_action_params.take();
        match buffered {
            Some(p) => {
                let payload = MqStreamingPayload::from(p);
                self.post_to_channel(payload);
            },
            None => {
                self.note_buffer_miss();
            },
        }
        self.history = Ghost(self.history@.push(e));
        proof {
            assert(self@.outgoing =~= mq_step(old(self)@, e).outgoing);
            assert(self@ == mq_step(old(self)@, e));
        }
    }

    fn trace_suicide(&mut self, address: Address, balance: U256, refund_address: Address) {
        let ghost e = Event::SelfDestruct {
            address: address@,
            balance: balance@,
            refund_address: refund_address@,
        };
        let mut payload = MqStreamingPayload::default();
        payload.code_address = address;
        payload.to = refund_address;
        payload.value = balance;
        self.post_to_channel(payload);
        self.history = Ghost(self.history@.push(e));
        proof {
            assert(self@.outgoing =~= mq_step(old(self)@, e).outgoing);
            assert(self@ == mq_step(old(self)@, e));
        }
    }

    fn trace_reward(&mut self, author: Address, value: U256, reward_type: RewardType) {
        let ghost e = Event::Reward { author: author@, value: value@, reward_type };
        let mut payload = MqStreamingPayload::default();
        payload.to = author;
        payload.value = value;
        payload.reward_type = reward_type;
        self.post_to_channel(payload);
        self.history = Ghost(self.history@.push(e));
        proof {
            assert(self@.outgoing =~= mq_step(old(self)@, e).outgoing);
            assert(self@ == mq_step(old(self)@, e));
        }
    }

    /// The publisher has no persistent output of its own.
    fn drain(self) -> (r: Vec<FlatTrace>) {
        let r: Vec<FlatTrace> = Vec::new();
        proof {
            assert(r@ =~= Seq::<FlatTrace>::empty());
        }
        r
    }
}

/// The no-op placeholder sink: it acknowledges every event, for a
/// fire-and-forget log at most, and contributes nothing to the flattened
/// trace.
pub struct NoopStreamingTracer {
    pub history: Ghost<Seq<Event>>,
}

impl Default for NoopStreamingTracer {
    /// A fresh no-op sink with an empty event history.
    fn default() -> (r: NoopStreamingTracer)
        ensures
            r.events() == Seq::<Event>::empty(),
            r.inv(),
    {
        NoopStreamingTracer { history: Ghost(Seq::empty()) }
    }
}

impl Tracer for NoopStreamingTracer {
    open spec fn events(&self) -> Seq<Event> {
        self.history@
    }

    open spec fn inv(&self) -> bool {
        true
    }

    /// Receiving an event changes nothing but the received-event history.
    open spec fn stepped(&self, pre: &Self, e: Event) -> bool {
        true
    }

    /// The no-op sink contributes nothing to the flattened trace.
    open spec fn drained(&self, r: Seq<FlatTrace>) -> bool {
        r == Seq::<FlatTrace>::empty()
    }

    fn prepare_trace_call(&mut self, params: &ActionParams, depth: usize, is_builtin: bool) {
        let ghost e = Event::EnterCall { params: params@, depth: depth as nat, is_builtin };
        self.history = Ghost(self.history@.push(e));
    }

    fn prepare_trace_create(&mut self, params: &ActionParams) {
        let ghost e = Event::EnterCreate { params: params@ };
        self.history = Ghost(self.history@.push(e));
    }

    fn done_trace_call(&mut self, gas_used: U256, output: &[u8]) {
        let ghost e = Event::ExitCall { gas_used: gas_used@, output: output@ };
        self.history = Ghost(self.history@.push(e));
    }

    fn done_trace_create(&mut self, gas_used: U256, code: &[u8], address: Address) {
        let ghost e = Event::ExitCreate { gas_used: gas_used@, code: code@, address: address@ };
        self.history = Ghost(self.history@.push(e));
    }

    fn done_trace_failed(&mut self, error: &VmError) {
        let ghost e = Event::ExitFailed { error: *error };
        self.history = Ghost(self.history@.push(e));
    }

    fn trace_suicide(&mut self, address: Address, balance: U256, refund_address: Address) {
        let ghost e = Event::SelfDestruct {
            address: address@,
            balance: balance@,
            refund_address: refund_address@,
        };
        self.history = Ghost(self.history@.push(e));
    }

    fn trace_reward(&mut self, author: Address, value: U256, reward_type: RewardType) {
        let ghost e = Event::Reward { author: author@, value: value@, reward_type };
        self.history = Ghost(self.history@.push(e));
    }

    fn drain(self) -> (r: Vec<FlatTrace>) {
        let r: Vec<FlatTrace> = Vec::new();
        proof {
            assert(r@ =~= Seq::<FlatTrace>::empty());
        }
        r
    }
}

} // verus!
