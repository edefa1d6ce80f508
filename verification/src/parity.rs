//! The traces that parity's tracing interface reports.

use alloy_primitives::{Address, Bytes, U256};
use vstd::prelude::*;

verus! {

/// The type of an [`Action`].
#[derive(Clone, Copy, Debug, PartialEq, Eq, Structural)]
pub enum ActionType {
    /// Contract call.
    Call,
    /// Contract creation.
    Create,
    /// Contract selfdestruct.
    Selfdestruct,
}

/// Call type.
#[derive(Clone, Copy, Debug, PartialEq, Eq, Structural)]
pub enum CallType {
    /// The action is no call.
    NotACall,
    /// Call
    Call,
    /// Call code
    CallCode,
    /// Delegate call
    DelegateCall,
    /// Static call
    StaticCall,
    /// Authorized call
    AuthCall,
}

/// Creation method.
#[derive(Clone, Copy, Debug, PartialEq, Eq, Structural)]
pub enum CreationMethod {
    /// The action is no creation.
    NotACreation,
    /// Create
    Create,
    /// Create2
    Create2,
}

/// A call of a contract.
#[derive(Debug, PartialEq, Eq)]
pub struct CallAction {
    /// Address of the sending account.
    pub from: Address,
    /// The type of the call.
    pub call_type: CallType,
    /// The gas available for executing the call.
    pub gas: u64,
    /// The input data provided to the call.
    pub input: Bytes,
    /// Address of the destination/target account.
    pub to: Address,
    /// Value transferred to the destination account.
    pub value: U256,
}

/// A creation of a contract.
#[derive(Debug, PartialEq, Eq)]
pub struct CreateAction {
    /// The address of the creator.
    pub from: Address,
    /// The gas available for the creation init code.
    pub gas: u64,
    /// The init code.
    pub init: Bytes,
    /// The value with which the new account is endowed.
    pub value: U256,
    /// The contract creation method.
    pub creation_method: CreationMethod,
}

/// A selfdestruct of a contract.
#[derive(Clone, Copy, Debug, PartialEq, Eq)]
pub struct SelfdestructAction {
    /// Destroyed address.
    pub address: Address,
    /// Balance of the contract just before it was destroyed.
    pub balance: U256,
    /// Heir of the destroyed contract.
    pub refund_address: Address,
}

/// What a trace did.
#[derive(Debug, PartialEq, Eq)]
pub enum Action {
    /// Regular call
    Call(CallAction),
    /// A creation
    Create(CreateAction),
    /// A selfdestruct
    Selfdestruct(SelfdestructAction),
}

impl Action {
    /// The type of the action.
    pub open spec fn action_type(self) -> ActionType {
        match self {
            Action::Call(_) => ActionType::Call,
            Action::Create(_) => ActionType::Create,
            Action::Selfdestruct(_) => ActionType::Selfdestruct,
        }
    }
}

/// Outcome of a call.
#[derive(Debug, PartialEq, Eq)]
pub struct CallOutput {
    /// Gas used by the call.
    pub gas_used: u64,
    /// The output data of the call.
    pub output: Bytes,
}

/// Outcome of a creation.
#[derive(Debug, PartialEq, Eq)]
pub struct CreateOutput {
    /// Address of the created contract.
    pub address: Address,
    /// Contract code.
    pub code: Bytes,
    /// Gas used by the call.
    pub gas_used: u64,
}

/// Outcome of a trace.
#[derive(Debug, PartialEq, Eq)]
pub enum TraceOutput {
    /// Output of a creation
    Create(CreateOutput),
    /// Output of a call
    Call(CallOutput),
}

/// A trace of a transaction's frame.
#[derive(Debug, PartialEq, Eq)]
pub struct TransactionTrace {
    /// What the trace did.
    pub action: Action,
    /// The error message if the trace failed.
    pub error: Option<String>,
    /// Outcome of the trace.
    pub result: Option<TraceOutput>,
    /// How many subtraces the trace has.
    pub subtraces: usize,
    /// The position of the trace within the tree of traces.
    pub trace_address: Vec<usize>,
}

} // verus!
