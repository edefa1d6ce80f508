//! How a frame or a step ended.

use vstd::prelude::*;

verus! {

/// The style in which an error message is written.
#[derive(Clone, Copy, Debug, PartialEq, Eq, Structural)]
pub enum TraceStyle {
    /// The style of parity's tracers.
    Parity,
    /// The style of geth's tracers.
    Geth,
}

/// The outcome of executing an instruction.
///
/// Every outcome is exactly one of a success, a revert and a halt.
#[derive(Clone, Copy, Debug, PartialEq, Eq, Structural)]
pub enum InstructionResult {
    /// Encountered a `STOP` opcode.
    Stop,
    /// Returned from the current call.
    Return,
    /// The contract destroyed itself.
    SelfDestruct,
    /// Suspended for a call or a creation.
    Suspend,
    /// The frame reverted.
    Revert,
    /// The call depth was exceeded.
    CallTooDeep,
    /// The balance does not cover the transfer.
    OutOfFunds,
    /// The init code starts with `0xEF00`.
    CreateInitCodeStartingEF00,
    /// The init code is no valid EVM object.
    InvalidEOFInitCode,
    /// The target of a delegate call is no EVM object.
    InvalidExtDelegateCallTarget,
    /// The gas ran out.
    OutOfGas,
    /// The gas ran out while memory grew.
    MemoryOOG,
    /// The memory limit was exceeded.
    MemoryLimitOOG,
    /// The gas ran out in a precompiled contract.
    PrecompileOOG,
    /// The gas ran out on an invalid operand.
    InvalidOperandOOG,
    /// The gas ran out at the reentrancy sentry.
    ReentrancySentryOOG,
    /// The opcode is unknown.
    OpcodeNotFound,
    /// A call with value inside a static call.
    CallNotAllowedInsideStatic,
    /// A state change inside a static call.
    StateChangeDuringStaticCall,
    /// The designated invalid opcode.
    InvalidFEOpcode,
    /// The jump destination is invalid.
    InvalidJump,
    /// The feature is not active.
    NotActivated,
    /// The stack has too few items.
    StackUnderflow,
    /// The stack has too many items.
    StackOverflow,
    /// A memory or storage offset is invalid.
    OutOfOffset,
    /// The address of the created contract is taken.
    CreateCollision,
    /// The payment overflows a balance.
    OverflowPayment,
    /// A precompiled contract failed.
    PrecompileError,
    /// The nonce overflows.
    NonceOverflow,
    /// The created contract is too large.
    CreateContractSizeLimit,
    /// The created contract starts with `0xEF`.
    CreateContractStartingWithEF,
    /// The init code is too large.
    CreateInitCodeSizeLimit,
    /// The database failed.
    FatalExternalError,
    /// An immediate operand is encoded wrongly.
    InvalidImmediateEncoding,
}

impl InstructionResult {
    /// The outcome is a success.
    pub open spec fn success(self) -> bool {
        self is Stop || self is Return || self is SelfDestruct || self is Suspend
    }

    /// The outcome undoes the frame and leaves its unused gas.
    pub open spec fn reverted(self) -> bool {
        ||| self is Revert
        ||| self is CallTooDeep
        ||| self is OutOfFunds
        ||| self is CreateInitCodeStartingEF00
        ||| self is InvalidEOFInitCode
        ||| self is InvalidExtDelegateCallTarget
    }

    /// The outcome is an error that is no revert.
    pub open spec fn halted(self) -> bool {
        !self.success() && !self.reverted()
    }

    /// The name of the outcome.
    pub open spec fn spec_name(self) -> Seq<char> {
        match self {
            InstructionResult::Stop => "Stop"@,
            InstructionResult::Return => "Return"@,
            InstructionResult::SelfDestruct => "SelfDestruct"@,
            InstructionResult::Suspend => "Suspend"@,
            InstructionResult::Revert => "Revert"@,
            InstructionResult::CallTooDeep => "CallTooDeep"@,
            InstructionResult::OutOfFunds => "OutOfFunds"@,
            InstructionResult::CreateInitCodeStartingEF00 => "CreateInitCodeStartingEF00"@,
            InstructionResult::InvalidEOFInitCode => "InvalidEOFInitCode"@,
            InstructionResult::InvalidExtDelegateCallTarget => "InvalidExtDelegateCallTarget"@,
            InstructionResult::OutOfGas => "OutOfGas"@,
            InstructionResult::MemoryOOG => "MemoryOOG"@,
            InstructionResult::MemoryLimitOOG => "MemoryLimitOOG"@,
            InstructionResult::PrecompileOOG => "PrecompileOOG"@,
            InstructionResult::InvalidOperandOOG => "InvalidOperandOOG"@,
            InstructionResult::ReentrancySentryOOG => "ReentrancySentryOOG"@,
            InstructionResult::OpcodeNotFound => "OpcodeNotFound"@,
            InstructionResult::CallNotAllowedInsideStatic => "CallNotAllowedInsideStatic"@,
            InstructionResult::StateChangeDuringStaticCall => "StateChangeDuringStaticCall"@,
            InstructionResult::InvalidFEOpcode => "InvalidFEOpcode"@,
            InstructionResult::InvalidJump => "InvalidJump"@,
            InstructionResult::NotActivated => "NotActivated"@,
            InstructionResult::StackUnderflow => "StackUnderflow"@,
            InstructionResult::StackOverflow => "StackOverflow"@,
            InstructionResult::OutOfOffset => "OutOfOffset"@,
            InstructionResult::CreateCollision => "CreateCollision"@,
            InstructionResult::OverflowPayment => "OverflowPayment"@,
            InstructionResult::PrecompileError => "PrecompileError"@,
            InstructionResult::NonceOverflow => "NonceOverflow"@,
            InstructionResult::CreateContractSizeLimit => "CreateContractSizeLimit"@,
            InstructionResult::CreateContractStartingWithEF => "CreateContractStartingWithEF"@,
            InstructionResult::CreateInitCodeSizeLimit => "CreateInitCodeSizeLimit"@,
            InstructionResult::FatalExternalError => "FatalExternalError"@,
            InstructionResult::InvalidImmediateEncoding => "InvalidImmediateEncoding"@,
        }
    }

    /// Returns whether the outcome is a success.
    pub fn is_ok(self) -> (r: bool)
        ensures
            r == self.success(),
    {
        matches!(
            self,
            InstructionResult::Stop | InstructionResult::Return | InstructionResult::SelfDestruct
                | InstructionResult::Suspend
        )
    }

    /// Returns whether the outcome is a revert.
    pub fn is_revert(self) -> (r: bool)
        ensures
            r == self.reverted(),
    {
        matches!(
            self,
            InstructionResult::Revert | InstructionResult::CallTooDeep
                | InstructionResult::OutOfFunds | InstructionResult::InvalidEOFInitCode
                | InstructionResult::CreateInitCodeStartingEF00
                | InstructionResult::InvalidExtDelegateCallTarget
        )
    }

    /// Returns whether the outcome is a halt, i.e. an error that is no revert.
    pub fn is_halt(self) -> (r: bool)
        ensures
            r == self.halted(),
    {
        !self.is_ok() && !self.is_revert()
    }

    /// Returns the name of the outcome.
    pub fn name(self) -> (r: &'static str)
        ensures
            r@ == self.spec_name(),
    {
        match self {
            InstructionResult::Stop => "Stop",
            InstructionResult::Return => "Return",
            InstructionResult::SelfDestruct => "SelfDestruct",
            InstructionResult::Suspend => "Suspend",
            InstructionResult::Revert => "Revert",
            InstructionResult::CallTooDeep => "CallTooDeep",
            InstructionResult::OutOfFunds => "OutOfFunds",
            InstructionResult::CreateInitCodeStartingEF00 => "CreateInitCodeStartingEF00",
            InstructionResult::InvalidEOFInitCode => "InvalidEOFInitCode",
            InstructionResult::InvalidExtDelegateCallTarget => "InvalidExtDelegateCallTarget",
            InstructionResult::OutOfGas => "OutOfGas",
            InstructionResult::MemoryOOG => "MemoryOOG",
            InstructionResult::MemoryLimitOOG => "MemoryLimitOOG",
            InstructionResult::PrecompileOOG => "PrecompileOOG",
            InstructionResult::InvalidOperandOOG => "InvalidOperandOOG",
            InstructionResult::ReentrancySentryOOG => "ReentrancySentryOOG",
            InstructionResult::OpcodeNotFound => "OpcodeNotFound",
            InstructionResult::CallNotAllowedInsideStatic => "CallNotAllowedInsideStatic",
            InstructionResult::StateChangeDuringStaticCall => "StateChangeDuringStaticCall",
            InstructionResult::InvalidFEOpcode => "InvalidFEOpcode",
            InstructionResult::InvalidJump => "InvalidJump",
            InstructionResult::NotActivated => "NotActivated",
            InstructionResult::StackUnderflow => "StackUnderflow",
            InstructionResult::StackOverflow => "StackOverflow",
            InstructionResult::OutOfOffset => "OutOfOffset",
            InstructionResult::CreateCollision => "CreateCollision",
            InstructionResult::OverflowPayment => "OverflowPayment",
            InstructionResult::PrecompileError => "PrecompileError",
            InstructionResult::NonceOverflow => "NonceOverflow",
            InstructionResult::CreateContractSizeLimit => "CreateContractSizeLimit",
            InstructionResult::CreateContractStartingWithEF => "CreateContractStartingWithEF",
            InstructionResult::CreateInitCodeSizeLimit => "CreateInitCodeSizeLimit",
            InstructionResult::FatalExternalError => "FatalExternalError",
            InstructionResult::InvalidImmediateEncoding => "InvalidImmediateEncoding",
        }
    }
}

} // verus!
