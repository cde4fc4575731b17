//! The event-sink capability: the contract every trace consumer
//! implements, the event model it is stated over, and the in-process
//! accumulating sink that turns the received events into a flattened
//! record list.

use vstd::prelude::*;
use crate::types::ActionParams;
use crate::types::Address;
use crate::types::ParamsView;
use crate::types::RewardType;
use crate::types::U256;
use crate::types::VmError;

verus! {

/// One frame-lifecycle or standalone signal, as mathematical content.
/// Sinks are specified by the sequence of these they have received.
pub ghost enum Event {
    EnterCall { params: ParamsView, depth: nat, is_builtin: bool },
    EnterCreate { params: ParamsView },
    ExitCall { gas_used: nat, output: Seq<u8> },
    ExitCreate { gas_used: nat, code: Seq<u8>, address: Seq<u8> },
    ExitFailed { error: VmError },
    SelfDestruct { address: Seq<u8>, balance: nat, refund_address: Seq<u8> },
    Reward { author: Seq<u8>, value: nat, reward_type: RewardType },
}

/// One flattened trace record: the accumulating sink keeps one per
/// received event, with the event's argument values.
#[derive(Debug, PartialEq)]
pub enum FlatTrace {
    EnterCall { params: ActionParams, depth: usize, is_builtin: bool },
    EnterCreate { params: ActionParams },
    ExitCall { gas_used: U256, output: Vec<u8> },
    ExitCreate { gas_used: U256, code: Vec<u8>, address: Address },
    ExitFailed { error: VmError },
    SelfDestruct { address: Address, balance: U256, refund_address: Address },
    Reward { author: Address, value: U256, reward_type: RewardType },
}

impl View for FlatTrace {
    type V = Event;

    open spec fn view(&self) -> Event {
        match self {
            FlatTrace::EnterCall { params, depth, is_builtin } => Event::EnterCall {
                params: params@,
                depth: *depth as nat,
                is_builtin: *is_builtin,
            },
            FlatTrace::EnterCreate { params } => Event::EnterCreate { params: params@ },
            FlatTrace::ExitCall { gas_used, output } => Event::ExitCall {
                gas_used: gas_used@,
                output: output@,
            },
            FlatTrace::ExitCreate { gas_used, code, address } => Event::ExitCreate {
                gas_used: gas_used@,
                code: code@,
                address: address@,
            },
            FlatTrace::ExitFailed { error } => Event::ExitFailed { error: *error },
            FlatTrace::SelfDestruct { address, balance, refund_address } => Event::SelfDestruct {
                address: address@,
                balance: balance@,
                refund_address: refund_address@,
            },
            FlatTrace::Reward { author, value, reward_type } => Event::Reward {
                author: author@,
                value: value@,
                reward_type: *reward_type,
            },
        }
    }
}

/// The event-sink capability. Events for a single call-stack path arrive
/// in depth-first, enter/exit-paired order; every implementation records
/// the arrival order in `events`. `drain` consumes the sink, so a second
/// drain of the same instance is rejected by the compiler.
pub trait Tracer: Sized {
    /// The events this sink has received, in arrival order.
    spec fn events(&self) -> Seq<Event>;

    /// The sink's well-formedness, established at construction and kept
    /// by every operation.
    spec fn inv(&self) -> bool;

    /// The implementation-specific guarantee on how receiving `e` moved
    /// the sink from `pre` to `self`.
    spec fn stepped(&self, pre: &Self, e: Event) -> bool;

    /// What the implementation promises of its drained record list.
    spec fn drained(&self, r: Seq<FlatTrace>) -> bool;

    /// Announce that a call frame is starting.
    fn prepare_trace_call(&mut self, params: &ActionParams, depth: usize, is_builtin: bool)
        requires
            old(self).inv(),
        ensures
            final(self).inv(),
            final(self).events() == old(self).events().push(
                Event::EnterCall { params: params@, depth: depth as nat, is_builtin },
            ),
            final(self).stepped(
                old(self),
                Event::EnterCall { params: params@, depth: depth as nat, is_builtin },
            ),
    ;

    /// Announce that a creation frame is starting.
    fn prepare_trace_create(&mut self, params: &ActionParams)
        requires
            old(self).inv(),
        ensures
            final(self).inv(),
            final(self).events() == old(self).events().push(
                Event::EnterCreate { params: params@ },
            ),
            final(self).stepped(old(self), Event::EnterCreate { params: params@ }),
    ;

    /// Announce normal completion of the most recently entered call frame.
    fn done_trace_call(&mut self, gas_used: U256, output: &[u8])
        requires
            old(self).inv(),
        ensures
            final(self).inv(),
            final(self).events() == old(self).events().push(
                Event::ExitCall { gas_used: gas_used@, output: output@ },
            ),
            final(self).stepped(
                old(self),
                Event::ExitCall { gas_used: gas_used@, output: output@ },
            ),
    ;

    /// Announce normal completion of the most recently entered creation
    /// frame.
    fn done_trace_create(&mut self, gas_used: U256, code: &[u8], address: Address)
        requires
            old(self).inv(),
        ensures
            final(self).inv(),
            final(self).events() == old(self).events().push(
                Event::ExitCreate { gas_used: gas_used@, code: code@, address: address@ },
            ),
            final(self).stepped(
                old(self),
                Event::ExitCreate { gas_used: gas_used@, code: code@, address: address@ },
            ),
    ;

    /// Announce abnormal completion of the most recently entered frame.
    fn done_trace_failed(&mut self, error: &VmError)
        requires
            old(self).inv(),
        ensures
            final(self).inv(),
            final(self).events() == old(self).events().push(Event::ExitFailed { error: *error }),
            final(self).stepped(old(self), Event::ExitFailed { error: *error }),
    ;

    /// A standalone terminal event: an account self-destructed, sweeping
    /// its balance to the refund address.
    fn trace_suicide(&mut self, address: Address, balance: U256, refund_address: Address)
        requires
            old(self).inv(),
        ensures
            final(self).inv(),
            final(self).events() == old(self).events().push(
                Event::SelfDestruct {
                    address: address@,
                    balance: balance@,
                    refund_address: refund_address@,
                },
            ),
            final(self).stepped(
                old(self),
                Event::SelfDestruct {
                    address: address@,
                    balance: balance@,
                    refund_address: refund_address@,
                },
            ),
    ;

    /// A standalone event: a block, uncle, or empty-step reward was paid.
    fn trace_reward(&mut self, author: Address, value: U256, reward_type: RewardType)
        requires
            old(self).inv(),
        ensures
            final(self).inv(),
            final(self).events() == old(self).events().push(
                Event::Reward { author: author@, value: value@, reward_type },
            ),
            final(self).stepped(
                old(self),
                Event::Reward { author: author@, value: value@, reward_type },
            ),
    ;

    /// Consumes the sink and returns its flattened record list. Callable
    /// once per instance: the sink is moved and cannot be used afterward.
    fn drain(self) -> (r: Vec<FlatTrace>)
        requires
            self.inv(),
        ensures
            self.drained(r@),
    ;
}

/// The in-process accumulator: keeps one flattened record per received
/// event and hands the whole list back on `drain`.
pub struct AccumulatingTracer {
    pub records: Vec<FlatTrace>,
}

impl AccumulatingTracer {
    /// A fresh accumulator with no records.
    pub fn new() -> (r: AccumulatingTracer)
        ensures
            r.inv(),
            r.events() == Seq::<Event>::empty(),
    {
        let r = AccumulatingTracer { records: Vec::new() };
        proof {
            assert(r.events() =~= Seq::<Event>::empty());
        }
        r
    }
}

impl Tracer for AccumulatingTracer {
    /// The accumulator's received events are its records' views, in order.
    open spec fn events(&self) -> Seq<Event> {
        self.records@.map_values(|t: FlatTrace| t@)
    }

    open spec fn inv(&self) -> bool {
        true
    }

    open spec fn stepped(&self, pre: &Self, e: Event) -> bool {
        true
    }

    /// The drained records are exactly the received events, in order.
    open spec fn drained(&self, r: Seq<FlatTrace>) -> bool {
        r.map_values(|t: FlatTrace| t@) == self.events()
    }

    fn prepare_trace_call(&mut self, params: &ActionParams, depth: usize, is_builtin: bool) {
        let p = params.clone();
        self.records.push(FlatTrace::EnterCall { params: p, depth, is_builtin });
        proof {
            assert(self.events() =~= old(self).events().push(
                Event::EnterCall { params: params@, depth: depth as nat, is_builtin },
            ));
        }
    }

    fn prepare_trace_create(&mut self, params: &ActionParams) {
        let p = params.clone();
        self.records.push(FlatTrace::EnterCreate { params: p });
        proof {
            assert(self.events() =~= old(self).events().push(
                Event::EnterCreate { params: params@ },
            ));
        }
    }

    fn done_trace_call(&mut self, gas_used: U256, output: &[u8]) {
        let out = vstd::slice::slice_to_vec(output);
        self.records.push(FlatTrace::ExitCall { gas_used, output: out });
        proof {
            assert(self.events() =~= old(self).events().push(
                Event::ExitCall { gas_used: gas_used@, output: output@ },
            ));
        }
    }

    fn done_trace_create(&mut self, gas_used: U256, code: &[u8], address: Address) {
        let c = vstd::slice::slice_to_vec(code);
        self.records.push(FlatTrace::ExitCreate { gas_used, code: c, address });
        proof {
            assert(self.events() =~= old(self).events().push(
                Event::ExitCreate { gas_used: gas_used@, code: code@, address: address@ },
            ));
        }
    }

    fn done_trace_failed(&mut self, error: &VmError) {
        self.records.push(FlatTrace::ExitFailed { error: *error });
        proof {
            assert(self.events() =~= old(self).events().push(
                Event::ExitFailed { error: *error },
            ));
        }
    }

    fn trace_suicide(&mut self, address: Address, balance: U256, refund_address: Address) {
        self.records.push(FlatTrace::SelfDestruct { address, balance, refund_address });
        proof {
            assert(self.events() =~= old(self).events().push(
                Event::SelfDestruct {
                    address: address@,
                    balance: balance@,
                    refund_address: refund_address@,
                },
            ));
        }
    }

    fn trace_reward(&mut self, author: Address, value: U256, reward_type: RewardType) {
        let ghost e = Event::Reward { author: author@, value: value@, reward_type };
        self.records.push(FlatTrace::Reward { author, value, reward_type });
        proof {
            assert(self.events() =~= old(self).events().push(e));
        }
    }

    fn drain(self) -> (r: Vec<FlatTrace>) {
        self.records
    }
}

} // verus!
