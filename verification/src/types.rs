//! Plain value types shared by every sink: account addresses, 256-bit
//! quantities, call and reward classifications, engine errors, and the
//! parameters of one call or creation frame.

use vstd::prelude::*;

verus! {

/// A 160-bit account address, held as its 20 raw bytes.
#[derive(Clone, Copy, Debug, PartialEq, Eq)]
pub struct Address {
    pub bytes: [u8; 20],
}

impl View for Address {
    type V = Seq<u8>;

    open spec fn view(&self) -> Seq<u8> {
        self.bytes@
    }
}

/// The address whose 20 bytes are all zero.
pub open spec fn zero_address() -> Seq<u8> {
    Seq::new(20, |i: int| 0u8)
}

impl Address {
    /// Wraps 20 raw bytes as an address.
    pub fn new(bytes: [u8; 20]) -> (r: Address)
        ensures
            r@ == bytes@,
    {
        Address { bytes }
    }

    /// The all-zero address.
    pub fn zero() -> (r: Address)
        ensures
            r@ == zero_address(),
    {
        let bytes = [0u8; 20];
        proof {
            assert(bytes@ =~= zero_address());
        }
        Address { bytes }
    }
}

/// An unsigned 256-bit quantity, held as four 64-bit words, least
/// significant first. Its view is the numeric value.
#[derive(Clone, Copy, Debug, PartialEq, Eq, Structural)]
pub struct U256 {
    pub w0: u64,
    pub w1: u64,
    pub w2: u64,
    pub w3: u64,
}

impl View for U256 {
    type V = nat;

    open spec fn view(&self) -> nat {
        self.w0 as nat + self.w1 as nat * 0x1_0000_0000_0000_0000
            + self.w2 as nat * 0x1_0000_0000_0000_0000_0000_0000_0000_0000
            + self.w3 as nat
            * 0x1_0000_0000_0000_0000_0000_0000_0000_0000_0000_0000_0000_0000
    }
}

impl U256 {
    /// The zero quantity.
    pub fn zero() -> (r: U256)
        ensures
            r@ == 0,
    {
        U256 { w0: 0, w1: 0, w2: 0, w3: 0 }
    }

    /// The quantity with the given low word and zero high words.
    pub fn from_u64(v: u64) -> (r: U256)
        ensures
            r@ == v,
    {
        U256 { w0: v, w1: 0, w2: 0, w3: 0 }
    }
}

/// How a call frame was invoked: not a call (a creation), an ordinary
/// call, a delegate call, or a static call.
#[derive(Clone, Copy, Debug, PartialEq, Eq, Structural)]
pub enum CallType {
    NoCall,
    Call,
    DelegateCall,
    StaticCall,
}

/// What a reward event pays out: a block (miner) reward, an uncle reward,
/// or an empty-step reward.
#[derive(Debug, PartialEq, Eq, Structural)]
pub enum RewardType {
    Block,
    Uncle,
    EmptyStep,
}

impl Clone for RewardType {
    /// The clone carries the same classification; fan-out sinks copy the
    /// tag so every member receives its own value.
    fn clone(&self) -> (r: Self)
        ensures
            r == *self,
    {
        match self {
            RewardType::Block => RewardType::Block,
            RewardType::Uncle => RewardType::Uncle,
            RewardType::EmptyStep => RewardType::EmptyStep,
        }
    }
}

/// Why a frame completed abnormally.
#[derive(Clone, Copy, Debug, PartialEq, Eq, Structural)]
pub enum VmError {
    OutOfGas,
    BadJumpDestination,
    BadInstruction,
    StackUnderflow,
    OutOfStack,
    BuiltIn,
    MutableCallInStaticContext,
    Internal,
    OutOfBounds,
    Reverted,
}

/// The parameters of one call or creation frame, produced by the engine
/// when the frame is entered and immutable from then on.
#[derive(Debug, PartialEq)]
pub struct ActionParams {
    pub code_address: Address,
    pub sender: Address,
    pub address: Address,
    pub origin: Address,
    pub gas: U256,
    pub gas_price: U256,
    pub value: U256,
    pub data: Option<Vec<u8>>,
    pub call_type: CallType,
}

/// The mathematical content of one frame's parameters.
pub ghost struct ParamsView {
    pub code_address: Seq<u8>,
    pub sender: Seq<u8>,
    pub address: Seq<u8>,
    pub origin: Seq<u8>,
    pub gas: nat,
    pub gas_price: nat,
    pub value: nat,
    pub data: Option<Seq<u8>>,
    pub call_type: CallType,
}

impl View for ActionParams {
    type V = ParamsView;

    open spec fn view(&self) -> ParamsView {
        ParamsView {
            code_address: self.code_address@,
            sender: self.sender@,
            address: self.address@,
            origin: self.origin@,
            gas: self.gas@,
            gas_price: self.gas_price@,
            value: self.value@,
            data: match self.data {
                Some(d) => Some(d@),
                None => None,
            },
            call_type: self.call_type,
        }
    }
}

impl Clone for ActionParams {
    /// The clone has the same view; sinks that buffer parameters across the
    /// enter/exit span clone them rather than taking ownership.
    fn clone(&self) -> (r: Self)
        ensures
            r@ == self@,
    {
        ActionParams {
            code_address: self.code_address,
            sender: self.sender,
            address: self.address,
            origin: self.origin,
            gas: self.gas,
            gas_price: self.gas_price,
            value: self.value,
            data: match &self.data {
                Some(d) => Some(vstd::slice::slice_to_vec(d.as_slice())),
                None => None,
            },
            call_type: self.call_type,
        }
    }
}

} // verus!
