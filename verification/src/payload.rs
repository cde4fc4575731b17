//! The broker payload: a flat snapshot of one call/create frame's
//! addresses, gas figures, value and classification tags, or of a
//! standalone self-destruct or reward event. Created fresh per publish
//! attempt and never mutated after construction.

use vstd::prelude::*;
use crate::types::ActionParams;
use crate::types::Address;
use crate::types::CallType;
use crate::types::ParamsView;
use crate::types::RewardType;
use crate::types::U256;
use crate::types::zero_address;

verus! {

/// The snapshot that the broker publisher serializes and sends, one per
/// published event.
#[derive(Debug, PartialEq)]
pub struct MqStreamingPayload {
    pub code_address: Address,
    pub from: Address,
    pub to: Address,
    pub origin: Address,
    pub gas: U256,
    pub gas_price: U256,
    pub gas_used: U256,
    pub value: U256,
    pub input_data: Option<Vec<u8>>,
    pub output_data: Option<Vec<u8>>,
    pub call_type: CallType,
    pub reward_type: RewardType,
}

/// The mathematical content of one payload.
pub ghost struct PayloadView {
    pub code_address: Seq<u8>,
    pub from: Seq<u8>,
    pub to: Seq<u8>,
    pub origin: Seq<u8>,
    pub gas: nat,
    pub gas_price: nat,
    pub gas_used: nat,
    pub value: nat,
    pub input_data: Option<Seq<u8>>,
    pub output_data: Option<Seq<u8>>,
    pub call_type: CallType,
    pub reward_type: RewardType,
}

impl View for MqStreamingPayload {
    type V = PayloadView;

    open spec fn view(&self) -> PayloadView {
        PayloadView {
            code_address: self.code_address@,
            from: self.from@,
            to: self.to@,
            origin: self.origin@,
            gas: self.gas@,
            gas_price: self.gas_price@,
            gas_used: self.gas_used@,
            value: self.value@,
            input_data: match self.input_data {
                Some(d) => Some(d@),
                None => None,
            },
            output_data: match self.output_data {
                Some(d) => Some(d@),
                None => None,
            },
            call_type: self.call_type,
            reward_type: self.reward_type,
        }
    }
}

/// The payload with every address and quantity zero, no data, no call
/// classification and the empty-step reward tag.
pub open spec fn default_payload() -> PayloadView {
    PayloadView {
        code_address: zero_address(),
        from: zero_address(),
        to: zero_address(),
        origin: zero_address(),
        gas: 0,
        gas_price: 0,
        gas_used: 0,
        value: 0,
        input_data: None,
        output_data: None,
        call_type: CallType::NoCall,
        reward_type: RewardType::EmptyStep,
    }
}

/// The payload derived from buffered frame parameters alone: outcome
/// fields (gas used, output data) are left at their defaults.
pub open spec fn payload_of_params(p: ParamsView) -> PayloadView {
    PayloadView {
        code_address: p.code_address,
        from: p.sender,
        to: p.address,
        origin: p.origin,
        gas: p.gas,
        gas_price: p.gas_price,
        gas_used: 0,
        value: p.value,
        input_data: p.data,
        output_data: None,
        call_type: p.call_type,
        reward_type: RewardType::EmptyStep,
    }
}

/// The payload published for a normally completed call frame: the
/// buffered parameters, layered with the gas used and the output bytes.
pub open spec fn call_exit_payload(p: ParamsView, gas_used: nat, output: Seq<u8>) -> PayloadView {
    PayloadView { gas_used, output_data: Some(output), ..payload_of_params(p) }
}

/// The payload published for a normally completed creation frame: the
/// buffered parameters, layered with the gas used and, as code address,
/// the address of the new contract.
pub open spec fn create_exit_payload(p: ParamsView, gas_used: nat, address: Seq<u8>) -> PayloadView {
    PayloadView { gas_used, code_address: address, ..payload_of_params(p) }
}

/// The payload published for an abnormally completed frame: the buffered
/// parameters with every outcome field left at its default.
pub open spec fn failed_exit_payload(p: ParamsView) -> PayloadView {
    payload_of_params(p)
}

/// The payload published for a self-destruct event: independent of any
/// buffered call state, it carries the destroyed account as code address,
/// the refund beneficiary as recipient, and the swept balance as value.
pub open spec fn suicide_payload(address: Seq<u8>, balance: nat, refund: Seq<u8>) -> PayloadView {
    PayloadView { code_address: address, to: refund, value: balance, ..default_payload() }
}

/// The payload published for a reward event: the beneficiary as
/// recipient, the paid value, and the reward classification.
pub open spec fn reward_payload(author: Seq<u8>, value: nat, kind: RewardType) -> PayloadView {
    PayloadView { to: author, value, reward_type: kind, ..default_payload() }
}

impl Default for MqStreamingPayload {
    /// The zero-initialized payload.
    fn default() -> (r: Self)
        ensures
            r@ == default_payload(),
    {
        MqStreamingPayload {
            code_address: Address::zero(),
            from: Address::zero(),
            to: Address::zero(),
            origin: Address::zero(),
            gas: U256::zero(),
            gas_price: U256::zero(),
            gas_used: U256::zero(),
            value: U256::zero(),
            input_data: None,
            output_data: None,
            call_type: CallType::NoCall,
            reward_type: RewardType::EmptyStep,
        }
    }
}

impl From<ActionParams> for MqStreamingPayload {
    /// Derives a payload from one frame's parameters; outcome fields are
    /// left at their defaults. The result is `from_spec(a)`, whose view is
    /// `payload_of_params(a@)`.
    fn from(a: ActionParams) -> Self {
        MqStreamingPayload {
            code_address: a.code_address,
            from: a.sender,
            to: a.address,
            origin: a.origin,
            gas: a.gas,
            gas_price: a.gas_price,
            gas_used: U256 { w0: 0, w1: 0, w2: 0, w3: 0 },
            value: a.value,
            input_data: a.data,
            output_data: None,
            call_type: a.call_type,
            reward_type: RewardType::EmptyStep,
        }
    }
}

impl vstd::std_specs::convert::FromSpecImpl<ActionParams> for MqStreamingPayload {
    open spec fn obeys_from_spec() -> bool {
        true
    }

    open spec fn from_spec(a: ActionParams) -> Self {
        MqStreamingPayload {
            code_address: a.code_address,
            from: a.sender,
            to: a.address,
            origin: a.origin,
            gas: a.gas,
            gas_price: a.gas_price,
            gas_used: U256 { w0: 0, w1: 0, w2: 0, w3: 0 },
            value: a.value,
            input_data: a.data,
            output_data: None,
            call_type: a.call_type,
            reward_type: RewardType::EmptyStep,
        }
    }
}

} // verus!
