//! Outcomes, opcodes and kinds of call, held against the tables of the interpreter.

use alloy_primitives::{Address, U256};
use call_trace::kind::{CallKind, CallScheme, CreateScheme};
use call_trace::opcode::{is_call_like_op, name_in_log, OpCode};
use call_trace::parity::{ActionType, CallType, CreationMethod};
use call_trace::status::InstructionResult;
use revm::bytecode::opcode;
use revm::interpreter::InstructionResult as Result;

/// Every outcome of the interpreter, and the library's.
const OUTCOMES: [(Result, InstructionResult); 34] = [
    (Result::Stop, InstructionResult::Stop),
    (Result::Return, InstructionResult::Return),
    (Result::SelfDestruct, InstructionResult::SelfDestruct),
    (Result::Suspend, InstructionResult::Suspend),
    (Result::Revert, InstructionResult::Revert),
    (Result::CallTooDeep, InstructionResult::CallTooDeep),
    (Result::OutOfFunds, InstructionResult::OutOfFunds),
    (Result::CreateInitCodeStartingEF00, InstructionResult::CreateInitCodeStartingEF00),
    (Result::InvalidEOFInitCode, InstructionResult::InvalidEOFInitCode),
    (Result::InvalidExtDelegateCallTarget, InstructionResult::InvalidExtDelegateCallTarget),
    (Result::OutOfGas, InstructionResult::OutOfGas),
    (Result::MemoryOOG, InstructionResult::MemoryOOG),
    (Result::MemoryLimitOOG, InstructionResult::MemoryLimitOOG),
    (Result::PrecompileOOG, InstructionResult::PrecompileOOG),
    (Result::InvalidOperandOOG, InstructionResult::InvalidOperandOOG),
    (Result::ReentrancySentryOOG, InstructionResult::ReentrancySentryOOG),
    (Result::OpcodeNotFound, InstructionResult::OpcodeNotFound),
    (Result::CallNotAllowedInsideStatic, InstructionResult::CallNotAllowedInsideStatic),
    (Result::StateChangeDuringStaticCall, InstructionResult::StateChangeDuringStaticCall),
    (Result::InvalidFEOpcode, InstructionResult::InvalidFEOpcode),
    (Result::InvalidJump, InstructionResult::InvalidJump),
    (Result::NotActivated, InstructionResult::NotActivated),
    (Result::StackUnderflow, InstructionResult::StackUnderflow),
    (Result::StackOverflow, InstructionResult::StackOverflow),
    (Result::OutOfOffset, InstructionResult::OutOfOffset),
    (Result::CreateCollision, InstructionResult::CreateCollision),
    (Result::OverflowPayment, InstructionResult::OverflowPayment),
    (Result::PrecompileError, InstructionResult::PrecompileError),
    (Result::NonceOverflow, InstructionResult::NonceOverflow),
    (Result::CreateContractSizeLimit, InstructionResult::CreateContractSizeLimit),
    (Result::CreateContractStartingWithEF, InstructionResult::CreateContractStartingWithEF),
    (Result::CreateInitCodeSizeLimit, InstructionResult::CreateInitCodeSizeLimit),
    (Result::FatalExternalError, InstructionResult::FatalExternalError),
    (Result::InvalidImmediateEncoding, InstructionResult::InvalidImmediateEncoding),
];

const KINDS: [CallKind; 7] = [
    CallKind::Call,
    CallKind::StaticCall,
    CallKind::CallCode,
    CallKind::DelegateCall,
    CallKind::AuthCall,
    CallKind::Create,
    CallKind::Create2,
];

#[test]
fn outcomes_are_judged_as_the_interpreter_judges_them() {
    for (theirs, ours) in OUTCOMES {
        assert_eq!(ours.name(), format!("{theirs:?}"));
        assert_eq!(ours.name(), format!("{ours:?}"));
        assert_eq!(ours.is_ok(), theirs.is_ok(), "{theirs:?}");
        assert_eq!(ours.is_revert(), theirs.is_revert(), "{theirs:?}");
        assert_eq!(ours.is_halt(), theirs.is_halt(), "{theirs:?}");
    }
}

#[test]
fn an_outcome_is_a_success_a_revert_or_a_halt() {
    for (_, outcome) in OUTCOMES {
        let judged = [outcome.is_ok(), outcome.is_revert(), outcome.is_halt()];
        assert_eq!(judged.iter().filter(|holds| **holds).count(), 1, "{outcome:?}");
    }
}

#[test]
fn opcodes_agree_with_the_opcode_table() {
    for byte in 0..=u8::MAX {
        let ours = OpCode::new_or_unknown(byte);
        let theirs = opcode::OpCode::new_or_unknown(byte);
        assert_eq!(ours.get(), byte);
        assert_eq!(ours.is_valid(), theirs.is_valid());
        assert_eq!(ours.as_str(), theirs.as_str());
        let name = if theirs.is_valid() { theirs.as_str() } else { "Unknown" };
        assert_eq!(ours.log_name(), name);
    }
    assert_eq!(OpCode::new_or_unknown(opcode::SSTORE).log_name(), "SSTORE");
    assert_eq!(OpCode::new_or_unknown(0x0c).log_name(), "Unknown");
}

#[test]
fn unknown_opcodes_have_a_name_of_their_own() {
    assert_eq!(name_in_log(true, "ADD"), "ADD");
    assert_eq!(name_in_log(false, "ADD"), "Unknown");
}

#[test]
fn six_opcodes_are_call_like() {
    let call_like = [
        opcode::CREATE,
        opcode::CALL,
        opcode::CALLCODE,
        opcode::DELEGATECALL,
        opcode::CREATE2,
        opcode::STATICCALL,
    ];
    for byte in 0..=u8::MAX {
        let op = OpCode::new_or_unknown(byte);
        assert_eq!(is_call_like_op(op), call_like.contains(&byte), "{byte:#x}");
    }
}

#[test]
fn kinds_have_distinct_names() {
    let names: Vec<&str> = KINDS.iter().map(|kind| kind.to_str()).collect();
    assert_eq!(
        names,
        ["CALL", "STATICCALL", "CALLCODE", "DELEGATECALL", "AUTHCALL", "CREATE", "CREATE2"]
    );
}

#[test]
fn kinds_are_told_apart() {
    for kind in KINDS {
        assert_eq!(kind.is_any_create(), matches!(kind, CallKind::Create | CallKind::Create2));
        assert_eq!(kind.is_delegate(), matches!(kind, CallKind::DelegateCall | CallKind::CallCode));
        assert_eq!(kind.is_static_call(), kind == CallKind::StaticCall);
        assert_eq!(kind.is_auth_call(), kind == CallKind::AuthCall);
        assert!(!(kind.is_any_create() && kind.is_delegate()));
    }
    assert_eq!(CallKind::default(), CallKind::Call);
}

#[test]
fn kinds_convert_to_parity_types() {
    let call_types = [
        CallType::Call,
        CallType::StaticCall,
        CallType::CallCode,
        CallType::DelegateCall,
        CallType::AuthCall,
        CallType::NotACall,
        CallType::NotACall,
    ];
    for (kind, call_type) in KINDS.into_iter().zip(call_types) {
        assert_eq!(CallType::from(kind), call_type);
        let create = kind.is_any_create();
        assert_eq!(CallType::from(kind) == CallType::NotACall, create);
        assert_eq!(ActionType::from(kind) == ActionType::Create, create);
        assert_eq!(ActionType::from(kind) == ActionType::Call, !create);
        assert_eq!(CreationMethod::from(kind) == CreationMethod::NotACreation, !create);
    }
    assert_eq!(CreationMethod::from(CallKind::Create), CreationMethod::Create);
    assert_eq!(CreationMethod::from(CallKind::Create2), CreationMethod::Create2);
}

#[test]
fn schemes_convert_to_kinds() {
    assert_eq!(CallKind::from(CallScheme::Call), CallKind::Call);
    assert_eq!(CallKind::from(CallScheme::StaticCall), CallKind::StaticCall);
    assert_eq!(CallKind::from(CallScheme::DelegateCall), CallKind::DelegateCall);
    assert_eq!(CallKind::from(CallScheme::CallCode), CallKind::CallCode);
    assert_eq!(CallKind::from(CreateScheme::Create), CallKind::Create);
    let salted = CreateScheme::Create2 { salt: U256::from(7) };
    assert_eq!(CallKind::from(salted), CallKind::Create2);
    let custom = CreateScheme::Custom { address: Address::repeat_byte(9) };
    assert_eq!(CallKind::from(custom), CallKind::Create);
}
