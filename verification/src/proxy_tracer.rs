//! The composite (fan-out) sinks: a proxy that relays every event, in a
//! fixed order and with identical argument values, to an ordered pair of
//! member sinks, and the parallel proxy for the VM-operation sink.
//!
//! `drain` is special: it is called on every member for its side effects,
//! but only the primary member's record list is surfaced as the
//! composite's own output.

use vstd::prelude::*;
use crate::sink::AccumulatingTracer;
use crate::sink::Event;
use crate::sink::FlatTrace;
use crate::sink::Tracer;
use crate::streaming_tracer::NoopStreamingTracer;
use crate::vmtrace::VMOperation;
use crate::vmtrace::VMTrace;
use crate::vmtrace::VmOperationTracer;
use crate::types::ActionParams;
use crate::types::Address;
use crate::types::RewardType;
use crate::types::U256;
use crate::types::VmError;

verus! {

/// The composite sink: relays every event to the streaming member first,
/// then to the primary (inner) member, with identical argument values.
pub struct ProxyTracer<I: Tracer, S: Tracer> {
    pub inner_tracer: I,
    pub streaming_tracer: S,
}

impl<I: Tracer> ProxyTracer<I, NoopStreamingTracer> {
    /// Composes a fresh primary member with the no-op placeholder.
    pub fn create(inner: I) -> (r: ProxyTracer<I, NoopStreamingTracer>)
        requires
            inner.inv(),
            inner.events() == Seq::<Event>::empty(),
        ensures
            r.inv(),
            r.inner_tracer == inner,
            r.events() == Seq::<Event>::empty(),
    {
        ProxyTracer { inner_tracer: inner, streaming_tracer: NoopStreamingTracer::default() }
    }
}

impl<I: Tracer, S: Tracer> ProxyTracer<I, S> {
    /// Composes a primary member with a streaming member. Both must have
    /// seen the same events (normally none): the composite keeps them in
    /// step from here on.
    pub fn create_with(inner: I, streaming: S) -> (r: ProxyTracer<I, S>)
        requires
            inner.inv(),
            streaming.inv(),
            inner.events() == streaming.events(),
        ensures
            r.inv(),
            r.inner_tracer == inner,
            r.streaming_tracer == streaming,
            r.events() == inner.events(),
    {
        ProxyTracer { inner_tracer: inner, streaming_tracer: streaming }
    }

    /// Borrows the streaming member mutably, so a caller can hand its
    /// queued payloads on (the publisher's `take_outgoing`).
    pub fn streaming_tracer_mut(&mut self) -> (r: &mut S)
        ensures
            *r == old(self).streaming_tracer,
            final(self).inner_tracer == old(self).inner_tracer,
            final(self).streaming_tracer == *final(r),
    {
        &mut self.streaming_tracer
    }
}

impl Default for ProxyTracer<AccumulatingTracer, NoopStreamingTracer> {
    /// The conventional composite: a fresh accumulator as the primary
    /// member, with the no-op placeholder beside it.
    fn default() -> (r: ProxyTracer<AccumulatingTracer, NoopStreamingTracer>)
        ensures
            r.inv(),
            r.events() == Seq::<Event>::empty(),
    {
        ProxyTracer::create(AccumulatingTracer::new())
    }
}

/// Law: whatever one relayed event did to the composite, each member
/// received exactly that event, appended to its own history.
pub proof fn lemma_composite_relays_each_event<I: Tracer, S: Tracer>(
    pre: ProxyTracer<I, S>,
    post: ProxyTracer<I, S>,
    e: Event,
)
    requires
        post.stepped(&pre, e),
    ensures
        post.inner_tracer.events() == pre.inner_tracer.events().push(e),
        post.streaming_tracer.events() == pre.streaming_tracer.events().push(e),
        post.inner_tracer.stepped(&pre.inner_tracer, e),
        post.streaming_tracer.stepped(&pre.streaming_tracer, e),
{
}

/// Law: a well-formed composite's members have received the same events
/// in the same order.
pub proof fn lemma_composite_members_agree<I: Tracer, S: Tracer>(c: &ProxyTracer<I, S>)
    requires
        c.inv(),
    ensures
        c.inner_tracer.events() == c.streaming_tracer.events(),
        c.inner_tracer.events() == c.events(),
{
}

impl<I: Tracer, S: Tracer> Tracer for ProxyTracer<I, S> {
    /// The composite's received events; its well-formedness keeps every
    /// member's history equal to this.
    open spec fn events(&self) -> Seq<Event> {
        self.inner_tracer.events()
    }

    open spec fn inv(&self) -> bool {
        &&& self.inner_tracer.inv()
        &&& self.streaming_tracer.inv()
        &&& self.inner_tracer.events() == self.streaming_tracer.events()
    }

    /// Receiving `e` relayed it to both members, with identical argument
    /// values, each member stepping by its own guarantee.
    open spec fn stepped(&self, pre: &Self, e: Event) -> bool {
        &&& self.inner_tracer.events() == pre.inner_tracer.events().push(e)
        &&& self.streaming_tracer.events() == pre.streaming_tracer.events().push(e)
        &&& self.inner_tracer.stepped(&pre.inner_tracer, e)
        &&& self.streaming_tracer.stepped(&pre.streaming_tracer, e)
    }

    /// The composite surfaces the primary member's record list.
    open spec fn drained(&self, r: Seq<FlatTrace>) -> bool {
        self.inner_tracer.drained(r)
    }

    fn prepare_trace_call(&mut self, params: &ActionParams, depth: usize, is_builtin: bool) {
        self.streaming_tracer.prepare_trace_call(params, depth, is_builtin);
        self.inner_tracer.prepare_trace_call(params, depth, is_builtin);
    }

    fn prepare_trace_create(&mut self, params: &ActionParams) {
        self.streaming_tracer.prepare_trace_create(params);
        self.inner_tracer.prepare_trace_create(params);
    }

    fn done_trace_call(&mut self, gas_used: U256, output: &[u8]) {
        self.streaming_tracer.done_trace_call(gas_used, output);
        self.inner_tracer.done_trace_call(gas_used, output);
    }

    fn done_trace_create(&mut self, gas_used: U256, code: &[u8], address: Address) {
        self.streaming_tracer.done_trace_create(gas_used, code, address);
        self.inner_tracer.done_trace_create(gas_used, code, address);
    }

    fn done_trace_failed(&mut self, error: &VmError) {
        self.streaming_tracer.done_trace_failed(error);
        self.inner_tracer.done_trace_failed(error);
    }

    fn trace_suicide(&mut self, address: Address, balance: U256, refund_address: Address) {
        self.streaming_tracer.trace_suicide(address, balance, refund_address);
        self.inner_tracer.trace_suicide(address, balance, refund_address);
    }

    fn trace_reward(&mut self, author: Address, value: U256, reward_type: RewardType) {
        // The classification tag is copied, not moved: each member gets
        // its own value.
        let rt = reward_type.clone();
        self.streaming_tracer.trace_reward(author, value, rt);
        self.inner_tracer.trace_reward(author, value, reward_type);
    }

    /// Drains every member; only the primary member's records are
    /// surfaced, the streaming member's are discarded.
    fn drain(self) -> (r: Vec<FlatTrace>) {
        let ProxyTracer { inner_tracer, streaming_tracer } = self;
        let _discarded = streaming_tracer.drain();
        inner_tracer.drain()
    }
}

/// The proxy for the VM-operation sink: forwards everything to its inner
/// per-instruction tracer.
pub struct ProxyVMTracer {
    pub inner_vmtracer: VmOperationTracer,
}

impl ProxyVMTracer {
    /// A started top-level instance: its inner sink holds the root node.
    pub fn toplevel() -> (r: ProxyVMTracer)
        ensures
            r.inner_vmtracer.inv(),
            r.inner_vmtracer.vmv() == crate::vmtrace::toplevel_view(),
    {
        ProxyVMTracer { inner_vmtracer: VmOperationTracer::toplevel() }
    }

    /// Forwards an enter-subtrace event to the inner sink.
    pub fn prepare_subtrace(&mut self)
        requires
            old(self).inner_vmtracer.inv(),
            old(self).inner_vmtracer.vmv().nodes.len() > 0,
        ensures
            final(self).inner_vmtracer.inv(),
            final(self).inner_vmtracer.vmv() == crate::vmtrace::vm_prepare(
                old(self).inner_vmtracer.vmv(),
            ),
    {
        self.inner_vmtracer.prepare_subtrace();
    }

    /// Forwards a frame-exit event to the inner sink.
    pub fn done_subtrace(&mut self)
        requires
            old(self).inner_vmtracer.inv(),
            old(self).inner_vmtracer.depth > 0,
        ensures
            final(self).inner_vmtracer.inv(),
            final(self).inner_vmtracer.vmv() == crate::vmtrace::vm_done(
                old(self).inner_vmtracer.vmv(),
            ),
    {
        self.inner_vmtracer.done_subtrace();
    }

    /// Forwards an operation-completion event to the inner sink.
    pub fn trace_executed(&mut self, op: VMOperation)
        requires
            old(self).inner_vmtracer.inv(),
            old(self).inner_vmtracer.vmv().nodes.len() > 0,
        ensures
            final(self).inner_vmtracer.inv(),
            final(self).inner_vmtracer.vmv() == crate::vmtrace::vm_record(
                old(self).inner_vmtracer.vmv(),
                op,
            ),
    {
        self.inner_vmtracer.trace_executed(op);
    }

    /// Consumes the proxy and returns the inner sink's root tree, or
    /// nothing if it was never started.
    pub fn drain(self) -> (r: Option<VMTrace>)
        ensures
            self.inner_vmtracer.vmv().nodes.len() == 0 ==> r is None,
            self.inner_vmtracer.vmv().nodes.len() > 0 ==> r is Some && r->Some_0@
                == self.inner_vmtracer.vmv().nodes,
    {
        self.inner_vmtracer.drain()
    }
}

impl Default for ProxyVMTracer {
    /// A never-started proxy: its drain returns nothing.
    fn default() -> (r: ProxyVMTracer)
        ensures
            r.inner_vmtracer.inv(),
            r.inner_vmtracer.vmv() == (crate::vmtrace::VmView {
                nodes: Seq::empty(),
                depth: 0,
            }),
    {
        ProxyVMTracer { inner_vmtracer: VmOperationTracer::default() }
    }
}

} // verus!
