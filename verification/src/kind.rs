//! The kinds of calls.

use alloy_primitives::{Address, U256};
use vstd::prelude::*;

use crate::parity::{ActionType, CallType, CreationMethod};

verus! {

/// The opcode that opens a call frame.
#[derive(Clone, Copy, Debug, PartialEq, Eq, Structural)]
pub enum CallScheme {
    /// `CALL`
    Call,
    /// `CALLCODE`
    CallCode,
    /// `DELEGATECALL`
    DelegateCall,
    /// `STATICCALL`
    StaticCall,
}

/// How the address of a created contract is chosen.
#[derive(Clone, Copy, Debug, PartialEq, Eq)]
pub enum CreateScheme {
    /// By `CREATE`
    Create,
    /// By `CREATE2`
    Create2 {
        /// Salt
        salt: U256,
    },
    /// The address is given.
    Custom {
        /// The address of the contract.
        address: Address,
    },
}

/// A unified representation of a call.
#[derive(Clone, Copy, Debug, PartialEq, Eq, Structural)]
pub enum CallKind {
    /// Represents a regular call.
    Call,
    /// Represents a static call.
    StaticCall,
    /// Represents a call code operation.
    CallCode,
    /// Represents a delegate call.
    DelegateCall,
    /// Represents an authorized call.
    AuthCall,
    /// Represents a contract creation operation.
    Create,
    /// Represents a contract creation operation using the CREATE2 opcode.
    Create2,
}

impl Default for CallKind {
    fn default() -> (r: Self)
        ensures
            r is Call,
    {
        CallKind::Call
    }
}

impl CallKind {
    /// The name of the call kind.
    pub open spec fn name(self) -> Seq<char> {
        match self {
            CallKind::Call => "CALL"@,
            CallKind::StaticCall => "STATICCALL"@,
            CallKind::CallCode => "CALLCODE"@,
            CallKind::DelegateCall => "DELEGATECALL"@,
            CallKind::AuthCall => "AUTHCALL"@,
            CallKind::Create => "CREATE"@,
            CallKind::Create2 => "CREATE2"@,
        }
    }

    /// The call creates a contract.
    pub open spec fn creates(self) -> bool {
        self is Create || self is Create2
    }

    /// The callee's code runs in the context of the caller.
    pub open spec fn delegates(self) -> bool {
        self is DelegateCall || self is CallCode
    }

    /// The parity action that the call is.
    pub open spec fn action_type(self) -> ActionType {
        if self.creates() {
            ActionType::Create
        } else {
            ActionType::Call
        }
    }

    /// The parity call type of the call.
    pub open spec fn call_type(self) -> CallType {
        match self {
            CallKind::Call => CallType::Call,
            CallKind::StaticCall => CallType::StaticCall,
            CallKind::CallCode => CallType::CallCode,
            CallKind::DelegateCall => CallType::DelegateCall,
            CallKind::AuthCall => CallType::AuthCall,
            CallKind::Create | CallKind::Create2 => CallType::NotACall,
        }
    }

    /// The parity creation method of the call.
    pub open spec fn creation_method(self) -> CreationMethod {
        match self {
            CallKind::Create => CreationMethod::Create,
            CallKind::Create2 => CreationMethod::Create2,
            _ => CreationMethod::NotACreation,
        }
    }

    /// Returns the string representation of the call kind.
    pub fn to_str(self) -> (r: &'static str)
        ensures
            r@ == self.name(),
    {
        match self {
            CallKind::Call => "CALL",
            CallKind::StaticCall => "STATICCALL",
            CallKind::CallCode => "CALLCODE",
            CallKind::DelegateCall => "DELEGATECALL",
            CallKind::AuthCall => "AUTHCALL",
            CallKind::Create => "CREATE",
            CallKind::Create2 => "CREATE2",
        }
    }

    /// Returns true if the call is a create
    pub fn is_any_create(&self) -> (r: bool)
        ensures
            r == self.creates(),
    {
        matches!(self, CallKind::Create | CallKind::Create2)
    }

    /// Returns true if the call is a delegate of some sorts
    pub fn is_delegate(&self) -> (r: bool)
        ensures
            r == self.delegates(),
    {
        matches!(self, CallKind::DelegateCall | CallKind::CallCode)
    }

    /// Returns true if the call is [CallKind::StaticCall].
    pub fn is_static_call(&self) -> (r: bool)
        ensures
            r == (*self is StaticCall),
    {
        matches!(self, CallKind::StaticCall)
    }

    /// Returns true if the call is [CallKind::AuthCall].
    pub fn is_auth_call(&self) -> (r: bool)
        ensures
            r == (*self is AuthCall),
    {
        matches!(self, CallKind::AuthCall)
    }
}

impl From<CallScheme> for CallKind {
    fn from(scheme: CallScheme) -> (r: Self) {
        match scheme {
            CallScheme::Call => CallKind::Call,
            CallScheme::StaticCall => CallKind::StaticCall,
            CallScheme::DelegateCall => CallKind::DelegateCall,
            CallScheme::CallCode => CallKind::CallCode,
        }
    }
}

impl vstd::std_specs::convert::FromSpecImpl<CallScheme> for CallKind {
    open spec fn obeys_from_spec() -> bool {
        true
    }

    open spec fn from_spec(scheme: CallScheme) -> Self {
        match scheme {
            CallScheme::Call => CallKind::Call,
            CallScheme::StaticCall => CallKind::StaticCall,
            CallScheme::DelegateCall => CallKind::DelegateCall,
            CallScheme::CallCode => CallKind::CallCode,
        }
    }
}

impl From<CreateScheme> for CallKind {
    fn from(create: CreateScheme) -> (r: Self) {
        match create {
            CreateScheme::Create => CallKind::Create,
            CreateScheme::Create2 { .. } => CallKind::Create2,
            CreateScheme::Custom { .. } => CallKind::Create,
        }
    }
}

impl vstd::std_specs::convert::FromSpecImpl<CreateScheme> for CallKind {
    open spec fn obeys_from_spec() -> bool {
        true
    }

    open spec fn from_spec(create: CreateScheme) -> Self {
        if create is Create2 {
            CallKind::Create2
        } else {
            CallKind::Create
        }
    }
}

impl From<CallKind> for CreationMethod {
    fn from(kind: CallKind) -> (r: CreationMethod) {
        match kind {
            CallKind::Create => CreationMethod::Create,
            CallKind::Create2 => CreationMethod::Create2,
            _ => CreationMethod::NotACreation,
        }
    }
}

impl vstd::std_specs::convert::FromSpecImpl<CallKind> for CreationMethod {
    open spec fn obeys_from_spec() -> bool {
        true
    }

    open spec fn from_spec(kind: CallKind) -> Self {
        kind.creation_method()
    }
}

impl From<CallKind> for ActionType {
    fn from(kind: CallKind) -> (r: Self) {
        match kind {
            CallKind::Call
            | CallKind::StaticCall
            | CallKind::DelegateCall
            | CallKind::CallCode
            | CallKind::AuthCall => ActionType::Call,
            CallKind::Create | CallKind::Create2 => ActionType::Create,
        }
    }
}

impl vstd::std_specs::convert::FromSpecImpl<CallKind> for ActionType {
    open spec fn obeys_from_spec() -> bool {
        true
    }

    open spec fn from_spec(kind: CallKind) -> Self {
        kind.action_type()
    }
}

impl From<CallKind> for CallType {
    fn from(ty: CallKind) -> (r: Self) {
        match ty {
            CallKind::Call => CallType::Call,
            CallKind::StaticCall => CallType::StaticCall,
            CallKind::CallCode => CallType::CallCode,
            CallKind::DelegateCall => CallType::DelegateCall,
            CallKind::Create | CallKind::Create2 => CallType::NotACall,
            CallKind::AuthCall => CallType::AuthCall,
        }
    }
}

impl vstd::std_specs::convert::FromSpecImpl<CallKind> for CallType {
    open spec fn obeys_from_spec() -> bool {
        true
    }

    open spec fn from_spec(ty: CallKind) -> Self {
        ty.call_type()
    }
}

} // verus!
