//! What a call says of itself, and what is reported of it to parity and to geth.

use alloy_primitives::{Address, FixedBytes};
use vstd::prelude::*;

use crate::decoded::{DecodedCallData, DecodedCallTrace};
use crate::geth::{CallFrame, GethDefaultTracingOptions, StructLog};
use crate::kind::CallKind;
use crate::node::CallTraceNode;
use crate::parity::{
    Action, CallType, CreationMethod, SelfdestructAction, TraceOutput, TransactionTrace,
};
use crate::primitives::{
    address_bytes, bytes_seq, log_payload, log_topics, selector_bytes, u256_limbs,
};
use crate::status::{InstructionResult, TraceStyle};
use crate::store::DetailedStepRef;
use crate::trace::CallTrace;

verus! {

/// A call failed where it has a status that is none of `Stop`, `Return`, `SelfDestruct` and
/// `Suspend`, and reverted where its status is `Revert`. It was a selfdestruct where its status is
/// `SelfDestruct` or it has a refund target.
pub proof fn calls_are_judged_by_their_status(
    trace: CallTrace,
    error: bool,
    revert: bool,
    selfdestruct: bool,
)
    requires
        call_ensures(CallTrace::is_error, (&trace,), error),
        call_ensures(CallTrace::is_revert, (&trace,), revert),
        call_ensures(CallTrace::is_selfdestruct, (&trace,), selfdestruct),
    ensures
        error <==> trace.status is Some && trace.status != Some(InstructionResult::Stop)
            && trace.status != Some(InstructionResult::Return) && trace.status != Some(
            InstructionResult::SelfDestruct,
        ) && trace.status != Some(InstructionResult::Suspend),
        revert <==> trace.status == Some(InstructionResult::Revert),
        selfdestruct <==> trace.status == Some(InstructionResult::SelfDestruct)
            || trace.selfdestruct_refund_target is Some,
{
}

/// The error message of a call is what the given function says of its status in the given style; a
/// call without a status has none.
pub proof fn error_messages_are_those_of_the_status<
    F: Fn(InstructionResult, TraceStyle) -> Option<String>,
>(trace: CallTrace, style: TraceStyle, fmt_error_msg: F, message: Option<String>)
    requires
        call_ensures(CallTrace::as_error_msg::<F>, (&trace, style, fmt_error_msg), message),
    ensures
        match trace.status {
            Some(status) => call_ensures(fmt_error_msg, (status, style), message),
            None => message is None,
        },
{
}

/// The decoded data of a call is what was there, or blank where there was none, and afterwards what
/// was written to it. Everything else of the call is as it was.
pub proof fn decoded_calls_are_kept(trace: &mut CallTrace, decoded: &mut DecodedCallTrace)
    requires
        call_ensures(CallTrace::decoded, (trace,), decoded),
    ensures
        *old(decoded) == match old(trace).decoded {
            Some(before) => *before,
            None => DecodedCallTrace { label: None, return_data: None, call_data: None },
        },
        final(trace).decoded == Some(Box::new(*final(decoded))),
        *final(trace) == (CallTrace { decoded: final(trace).decoded, ..*old(trace) }),
{
}

/// The label, the call data and the return data of a call are those of its decoded data.
pub proof fn decoded_parts_are_those_of_the_decoded_call<'a>(
    trace: CallTrace,
    fallback: &'a str,
    label: &'a str,
    call_data: Option<&'a DecodedCallData>,
    return_data: Option<&'a str>,
)
    requires
        call_ensures(CallTrace::decoded_label, (&trace, fallback), label),
        call_ensures(CallTrace::decoded_call_data, (&trace,), call_data),
        call_ensures(CallTrace::decoded_return_data, (&trace,), return_data),
    ensures
        match trace.decoded {
            Some(decoded) => {
                &&& label@ == match decoded.label {
                    Some(text) => text@,
                    None => fallback@,
                }
                &&& match decoded.call_data {
                    Some(data) => call_data == Some(&data),
                    None => call_data is None,
                }
                &&& match decoded.return_data {
                    Some(text) => return_data is Some && return_data->0@ == text@,
                    None => return_data is None,
                }
            },
            None => label@ == fallback@ && call_data is None && return_data is None,
        },
{
}

/// A call runs in the context of its caller where it is a delegate call or a call of code, and in
/// that of its target elsewhere.
pub proof fn calls_run_in_the_context_of_caller_or_target(node: CallTraceNode, context: Address)
    requires
        call_ensures(CallTraceNode::execution_address, (&node,), context),
    ensures
        context == if node.trace.kind == CallKind::DelegateCall || node.trace.kind
            == CallKind::CallCode {
            node.trace.caller
        } else {
            node.trace.address
        },
{
}

/// A node says of its call what its trace holds.
pub proof fn nodes_say_what_their_trace_holds(
    node: CallTraceNode,
    logs: usize,
    precompile: bool,
    kind: CallKind,
    status: Option<InstructionResult>,
    selfdestruct: bool,
    trace_selfdestruct: bool,
)
    requires
        call_ensures(CallTraceNode::log_count, (&node,), logs),
        call_ensures(CallTraceNode::is_precompile, (&node,), precompile),
        call_ensures(CallTraceNode::kind, (&node,), kind),
        call_ensures(CallTraceNode::status, (&node,), status),
        call_ensures(CallTraceNode::is_selfdestruct, (&node,), selfdestruct),
        call_ensures(CallTrace::is_selfdestruct, (&node.trace,), trace_selfdestruct),
    ensures
        logs == node.logs@.len(),
        precompile <==> node.trace.maybe_precompile == Some(true),
        kind == node.trace.kind,
        status == node.trace.status,
        selfdestruct == trace_selfdestruct,
{
}

/// The selector of a call is the first four bytes of its data, where there are as many.
pub proof fn selectors_are_the_first_four_bytes(
    node: CallTraceNode,
    selector: Option<FixedBytes<4>>,
)
    requires
        call_ensures(CallTraceNode::selector, (&node,), selector),
    ensures
        selector is Some <==> bytes_seq(node.trace.data).len() >= 4,
        selector matches Some(selector) ==> {
            &&& selector_bytes(selector).len() == 4
            &&& forall|i: int|
                0 <= i < 4 ==> selector_bytes(selector)[i] == bytes_seq(node.trace.data)[i]
        },
{
}

/// The parity action of a call goes from its caller to its target, with its value, its gas limit
/// and its data; that of a creation goes from its caller, with the data as init code. Which of the
/// two it is, and its type or method, depend on the kind of the call alone.
pub proof fn parity_actions_show_the_call(node: CallTraceNode, action: Action)
    requires
        call_ensures(CallTraceNode::parity_action, (&node,), action),
    ensures
        match action {
            Action::Call(call) => {
                &&& call.from == node.trace.caller
                &&& call.to == node.trace.address
                &&& call.value == node.trace.value
                &&& call.gas == node.trace.gas_limit
                &&& bytes_seq(call.input) == bytes_seq(node.trace.data)
                &&& match node.trace.kind {
                    CallKind::Call => call.call_type == CallType::Call,
                    CallKind::StaticCall => call.call_type == CallType::StaticCall,
                    CallKind::CallCode => call.call_type == CallType::CallCode,
                    CallKind::DelegateCall => call.call_type == CallType::DelegateCall,
                    CallKind::AuthCall => call.call_type == CallType::AuthCall,
                    CallKind::Create | CallKind::Create2 => false,
                }
            },
            Action::Create(create) => {
                &&& create.from == node.trace.caller
                &&& create.value == node.trace.value
                &&& create.gas == node.trace.gas_limit
                &&& bytes_seq(create.init) == bytes_seq(node.trace.data)
                &&& match node.trace.kind {
                    CallKind::Create => create.creation_method == CreationMethod::Create,
                    CallKind::Create2 => create.creation_method == CreationMethod::Create2,
                    _ => false,
                }
            },
            Action::Selfdestruct(_) => false,
        },
{
}

/// The parity output of a call holds the bytes that it returned, and that of a creation those as
/// code with the address of the contract, whatever the status. Both show the gas that was used.
pub proof fn parity_outputs_hold_the_output(node: CallTraceNode, output: TraceOutput)
    requires
        call_ensures(CallTraceNode::parity_trace_output, (&node,), output),
    ensures
        match output {
            TraceOutput::Call(call) => {
                &&& node.trace.kind != CallKind::Create && node.trace.kind != CallKind::Create2
                &&& call.gas_used == node.trace.gas_used
                &&& bytes_seq(call.output) == bytes_seq(node.trace.output)
            },
            TraceOutput::Create(create) => {
                &&& node.trace.kind == CallKind::Create || node.trace.kind == CallKind::Create2
                &&& create.gas_used == node.trace.gas_used
                &&& bytes_seq(create.code) == bytes_seq(node.trace.output)
                &&& create.address == node.trace.address
            },
        },
{
}

/// The parity trace of a call has a result unless the call failed without reverting, and the result
/// holds the bytes that the call returned; a reverted call has one. It counts the children, keeps
/// the address that it is given, and its error is what the given function says of the status.
pub proof fn parity_traces_show_action_and_result<
    F: Fn(InstructionResult, TraceStyle) -> Option<String>,
>(
    node: CallTraceNode,
    trace_address: Vec<usize>,
    fmt_error_msg: F,
    trace: TransactionTrace,
    error: bool,
    revert: bool,
)
    requires
        call_ensures(
            CallTraceNode::parity_transaction_trace::<F>,
            (&node, trace_address, fmt_error_msg),
            trace,
        ),
        call_ensures(CallTrace::is_error, (&node.trace,), error),
        call_ensures(CallTrace::is_revert, (&node.trace,), revert),
    ensures
        trace.result is Some <==> !error || revert,
        node.trace.status == Some(InstructionResult::Revert) ==> trace.result is Some,
        match trace.result {
            Some(TraceOutput::Call(call)) => {
                &&& node.trace.kind != CallKind::Create && node.trace.kind != CallKind::Create2
                &&& call.gas_used == node.trace.gas_used
                &&& bytes_seq(call.output) == bytes_seq(node.trace.output)
            },
            Some(TraceOutput::Create(create)) => {
                &&& node.trace.kind == CallKind::Create || node.trace.kind == CallKind::Create2
                &&& create.gas_used == node.trace.gas_used
                &&& bytes_seq(create.code) == bytes_seq(node.trace.output)
                &&& create.address == node.trace.address
            },
            None => true,
        },
        match node.trace.status {
            Some(status) => call_ensures(fmt_error_msg, (status, TraceStyle::Parity), trace.error),
            None => trace.error is None,
        },
        trace.subtraces == node.children@.len(),
        trace.trace_address == trace_address,
{
}

/// The action in the parity trace of a call is the parity action of the call.
pub proof fn parity_traces_hold_the_action<
    F: Fn(InstructionResult, TraceStyle) -> Option<String>,
>(
    node: CallTraceNode,
    trace_address: Vec<usize>,
    fmt_error_msg: F,
    trace: TransactionTrace,
    action: Action,
)
    requires
        call_ensures(
            CallTraceNode::parity_transaction_trace::<F>,
            (&node, trace_address, fmt_error_msg),
            trace,
        ),
        call_ensures(CallTraceNode::parity_action, (&node,), action),
    ensures
        match (trace.action, action) {
            (Action::Call(a), Action::Call(b)) => {
                &&& a.from == b.from && a.from == node.trace.caller
                &&& a.to == b.to && a.to == node.trace.address
                &&& a.value == b.value && a.value == node.trace.value
                &&& a.gas == b.gas && a.gas == node.trace.gas_limit
                &&& a.call_type == b.call_type
                &&& bytes_seq(a.input) == bytes_seq(b.input)
                &&& bytes_seq(a.input) == bytes_seq(node.trace.data)
            },
            (Action::Create(a), Action::Create(b)) => {
                &&& a.from == b.from && a.from == node.trace.caller
                &&& a.value == b.value && a.value == node.trace.value
                &&& a.gas == b.gas && a.gas == node.trace.gas_limit
                &&& a.creation_method == b.creation_method
                &&& bytes_seq(a.init) == bytes_seq(b.init)
                &&& bytes_seq(a.init) == bytes_seq(node.trace.data)
            },
            _ => false,
        },
{
}

/// `found` is the address in `known`, or the zero address where there is none.
pub open spec fn known_or_zero(found: Address, known: Option<Address>) -> bool {
    match known {
        Some(address) => found == address,
        None => {
            &&& address_bytes(found).len() == 20
            &&& forall|i: int| 0 <= i < 20 ==> address_bytes(found)[i] == 0
        },
    }
}

/// A selfdestruct is reported to parity, as an action and as a trace of its own, and to geth, each
/// just where the call was a selfdestruct.
pub proof fn selfdestructs_are_reported_together(
    node: CallTraceNode,
    trace_address: Vec<usize>,
    selfdestruct: bool,
    action: Option<Action>,
    trace: Option<TransactionTrace>,
    frame: Option<CallFrame>,
)
    requires
        call_ensures(CallTraceNode::is_selfdestruct, (&node,), selfdestruct),
        call_ensures(CallTraceNode::parity_selfdestruct_action, (&node,), action),
        call_ensures(CallTraceNode::parity_selfdestruct_trace, (&node, trace_address), trace),
        call_ensures(CallTraceNode::geth_selfdestruct_call_trace, (&node,), frame),
    ensures
        action is Some <==> selfdestruct,
        trace is Some <==> selfdestruct,
        frame is Some <==> selfdestruct,
        selfdestruct <==> node.trace.status == Some(InstructionResult::SelfDestruct)
            || node.trace.selfdestruct_refund_target is Some,
{
}

/// `action` is a selfdestruct of the contract that the call destroyed, with its heir and its
/// balance, each zero where it is unknown.
pub open spec fn shows_the_selfdestruct(node: CallTraceNode, action: Action) -> bool {
    match action {
        Action::Selfdestruct(SelfdestructAction { address, balance, refund_address }) => {
            &&& known_or_zero(address, node.trace.selfdestruct_address)
            &&& known_or_zero(refund_address, node.trace.selfdestruct_refund_target)
            &&& match node.trace.selfdestruct_transferred_value {
                Some(value) => balance == value,
                None => u256_limbs(balance) == seq![0u64, 0u64, 0u64, 0u64],
            }
        },
        _ => false,
    }
}

/// The parity action of a selfdestruct names the contract, its heir and its balance. The trace of
/// its own holds such an action at the given address, without error, result or subtraces.
pub proof fn parity_selfdestructs_show_contract_and_heir(
    node: CallTraceNode,
    trace_address: Vec<usize>,
    action: Option<Action>,
    trace: Option<TransactionTrace>,
)
    requires
        call_ensures(CallTraceNode::parity_selfdestruct_action, (&node,), action),
        call_ensures(CallTraceNode::parity_selfdestruct_trace, (&node, trace_address), trace),
    ensures
        action matches Some(action) ==> shows_the_selfdestruct(node, action),
        trace matches Some(trace) ==> {
            &&& shows_the_selfdestruct(node, trace.action)
            &&& trace.error is None
            &&& trace.result is None
            &&& trace.subtraces == 0
            &&& trace.trace_address == trace_address
        },
{
}

/// The geth frame of a selfdestruct goes from the contract to its heir with the balance, and shows
/// nothing else.
pub proof fn geth_selfdestructs_show_contract_and_heir(node: CallTraceNode, frame: CallFrame)
    requires
        call_ensures(CallTraceNode::geth_selfdestruct_call_trace, (&node,), Some(frame)),
    ensures
        frame.typ@ == "SELFDESTRUCT"@,
        known_or_zero(frame.from, node.trace.selfdestruct_address),
        frame.to == node.trace.selfdestruct_refund_target,
        frame.value == node.trace.selfdestruct_transferred_value,
        u256_limbs(frame.gas) == seq![0u64, 0u64, 0u64, 0u64],
        u256_limbs(frame.gas_used) == seq![0u64, 0u64, 0u64, 0u64],
        bytes_seq(frame.input).len() == 0,
        frame.output is None,
        frame.error is None,
        frame.revert_reason is None,
        frame.calls@.len() == 0,
        frame.logs@.len() == 0,
{
}

/// The geth frame of a call goes from its caller, with its gas limit and its data, and has its kind
/// as type.
pub proof fn geth_frames_show_the_call<
    F: Fn(InstructionResult, TraceStyle) -> Option<String>,
    G: Fn(&[u8]) -> Option<String>,
>(
    node: CallTraceNode,
    include_logs: bool,
    fmt_error_msg: F,
    maybe_revert_reason: G,
    frame: CallFrame,
)
    requires
        call_ensures(
            CallTraceNode::geth_empty_call_frame::<F, G>,
            (&node, include_logs, fmt_error_msg, maybe_revert_reason),
            frame,
        ),
    ensures
        frame.typ@ == match node.trace.kind {
            CallKind::Call => "CALL"@,
            CallKind::StaticCall => "STATICCALL"@,
            CallKind::CallCode => "CALLCODE"@,
            CallKind::DelegateCall => "DELEGATECALL"@,
            CallKind::AuthCall => "AUTHCALL"@,
            CallKind::Create => "CREATE"@,
            CallKind::Create2 => "CREATE2"@,
        },
        frame.from == node.trace.caller,
        u256_limbs(frame.gas) == seq![node.trace.gas_limit, 0u64, 0u64, 0u64],
        bytes_seq(frame.input) == bytes_seq(node.trace.data),
        frame.calls@.len() == 0,
{
}

/// The geth frame of a call goes to its target, which for a creation is the contract that it
/// created; only a creation that did not succeed goes nowhere. It shows the value, but for a static
/// call.
pub proof fn geth_frames_go_to_the_target<
    F: Fn(InstructionResult, TraceStyle) -> Option<String>,
    G: Fn(&[u8]) -> Option<String>,
>(
    node: CallTraceNode,
    include_logs: bool,
    fmt_error_msg: F,
    maybe_revert_reason: G,
    frame: CallFrame,
)
    requires
        call_ensures(
            CallTraceNode::geth_empty_call_frame::<F, G>,
            (&node, include_logs, fmt_error_msg, maybe_revert_reason),
            frame,
        ),
    ensures
        node.trace.success ==> frame.to == Some(node.trace.address),
        frame.to is None <==> !node.trace.success && (node.trace.kind == CallKind::Create
            || node.trace.kind == CallKind::Create2),
        frame.to is Some ==> frame.to == Some(node.trace.address),
        frame.value is None <==> node.trace.kind == CallKind::StaticCall,
        frame.value is Some ==> frame.value == Some(node.trace.value),
{
}

/// The geth frame of a call that succeeded, or whose status is a revert of some sort, shows the gas
/// that was used and the output if there is any. That of every other call shows the gas limit as
/// used, and no output.
pub proof fn geth_frames_show_gas_and_output<
    F: Fn(InstructionResult, TraceStyle) -> Option<String>,
    G: Fn(&[u8]) -> Option<String>,
>(
    node: CallTraceNode,
    include_logs: bool,
    fmt_error_msg: F,
    maybe_revert_reason: G,
    frame: CallFrame,
)
    requires
        call_ensures(
            CallTraceNode::geth_empty_call_frame::<F, G>,
            (&node, include_logs, fmt_error_msg, maybe_revert_reason),
            frame,
        ),
    ensures
        ({
            let status = node.trace.status;
            let kept = node.trace.success || status == Some(InstructionResult::Revert) || status
                == Some(InstructionResult::CallTooDeep) || status == Some(
                InstructionResult::OutOfFunds,
            ) || status == Some(InstructionResult::CreateInitCodeStartingEF00) || status == Some(
                InstructionResult::InvalidEOFInitCode,
            ) || status == Some(InstructionResult::InvalidExtDelegateCallTarget);
            &&& u256_limbs(frame.gas_used) == seq![
                if kept {
                    node.trace.gas_used
                } else {
                    node.trace.gas_limit
                },
                0u64,
                0u64,
                0u64,
            ]
            &&& frame.output is Some <==> kept && bytes_seq(node.trace.output).len() > 0
            &&& frame.output matches Some(output) ==> bytes_seq(output) == bytes_seq(
                node.trace.output,
            )
        }),
{
}

/// The geth frame of a call that succeeded shows neither an error nor a revert reason. That of
/// every other call shows what the given functions say of the status and of the output.
pub proof fn geth_frames_show_the_error<
    F: Fn(InstructionResult, TraceStyle) -> Option<String>,
    G: Fn(&[u8]) -> Option<String>,
>(
    node: CallTraceNode,
    include_logs: bool,
    fmt_error_msg: F,
    maybe_revert_reason: G,
    frame: CallFrame,
)
    requires
        call_ensures(
            CallTraceNode::geth_empty_call_frame::<F, G>,
            (&node, include_logs, fmt_error_msg, maybe_revert_reason),
            frame,
        ),
    ensures
        node.trace.success ==> frame.error is None && frame.revert_reason is None,
        !node.trace.success ==> match node.trace.status {
            Some(status) => call_ensures(fmt_error_msg, (status, TraceStyle::Geth), frame.error),
            None => frame.error is None,
        },
        !node.trace.success ==> exists|output: &[u8]|
            output@ == bytes_seq(node.trace.output) && #[trigger] call_ensures(
                maybe_revert_reason,
                (output,),
                frame.revert_reason,
            ),
{
}

/// The geth frame of a call shows its logs where they are asked for, all of them and in order, each
/// with its emitter, its topics, its data, its position and its index.
pub proof fn geth_frames_show_the_logs<
    F: Fn(InstructionResult, TraceStyle) -> Option<String>,
    G: Fn(&[u8]) -> Option<String>,
>(
    node: CallTraceNode,
    include_logs: bool,
    fmt_error_msg: F,
    maybe_revert_reason: G,
    frame: CallFrame,
)
    requires
        call_ensures(
            CallTraceNode::geth_empty_call_frame::<F, G>,
            (&node, include_logs, fmt_error_msg, maybe_revert_reason),
            frame,
        ),
    ensures
        !include_logs ==> frame.logs@.len() == 0,
        include_logs ==> frame.logs@.len() == node.logs@.len(),
        forall|i: int|
            0 <= i < frame.logs@.len() ==> {
                let log = node.logs@[i];
                let shown = #[trigger] frame.logs@[i];
                &&& shown.address == Some(log.address)
                &&& shown.topics is Some && shown.topics->0@ == log_topics(log.raw_log)
                &&& shown.data is Some && bytes_seq(shown.data->0) == log_payload(log.raw_log)
                &&& shown.position == Some(log.position)
                &&& shown.index == Some(log.index)
            },
{
}

/// The parity action and the geth frame of a call name the same sender and, but for a creation, the
/// same target.
pub proof fn parity_and_geth_name_the_same_parties<
    F: Fn(InstructionResult, TraceStyle) -> Option<String>,
    G: Fn(&[u8]) -> Option<String>,
>(
    node: CallTraceNode,
    include_logs: bool,
    fmt_error_msg: F,
    maybe_revert_reason: G,
    frame: CallFrame,
    action: Action,
)
    requires
        call_ensures(
            CallTraceNode::geth_empty_call_frame::<F, G>,
            (&node, include_logs, fmt_error_msg, maybe_revert_reason),
            frame,
        ),
        call_ensures(CallTraceNode::parity_action, (&node,), action),
    ensures
        match action {
            Action::Call(call) => {
                &&& call.from == frame.from
                &&& frame.to == Some(call.to)
                &&& bytes_seq(call.input) == bytes_seq(frame.input)
                &&& u256_limbs(frame.gas) == seq![call.gas, 0u64, 0u64, 0u64]
                &&& frame.value is Some ==> frame.value == Some(call.value)
            },
            Action::Create(create) => {
                &&& create.from == frame.from
                &&& bytes_seq(create.init) == bytes_seq(frame.input)
                &&& u256_limbs(frame.gas) == seq![create.gas, 0u64, 0u64, 0u64]
                &&& frame.value == Some(create.value)
            },
            Action::Selfdestruct(_) => false,
        },
{
}

/// A struct log shows the place, the gas and the opcode of its step. It has an error just where the
/// step's record has one.
pub proof fn struct_logs_show_the_step<'a>(
    step: DetailedStepRef<'a>,
    opts: GethDefaultTracingOptions,
    depth: u64,
    log: StructLog,
    name: &'static str,
    error: Option<String>,
)
    requires
        call_ensures(DetailedStepRef::convert_to_geth_struct_log, (&step, &opts, depth), log),
        call_ensures(crate::opcode::OpCode::log_name, (step.op,), name),
        call_ensures(crate::detail::StepDetail::as_error, (step.detail,), error),
    ensures
        log.depth == depth,
        log.pc == step.pc,
        log.op@ == name@,
        log.gas == step.detail.gas_remaining,
        log.gas_cost == step.detail.gas_cost,
        log.refund_counter == Some(step.detail.gas_refund_counter),
        log.error is Some <==> error is Some,
        log.error is Some ==> log.error->0@ == error->0@,
        log.storage is None,
        log.return_data is None,
        log.memory_size is None,
{
}

/// A struct log shows the stack unless it is switched off, and the memory where it is switched on,
/// as far as they were recorded: the words of the stack, and the text of each chunk of the memory.
pub proof fn struct_logs_show_stack_and_memory<'a>(
    step: DetailedStepRef<'a>,
    opts: GethDefaultTracingOptions,
    depth: u64,
    log: StructLog,
    chunks: Vec<String>,
)
    requires
        call_ensures(DetailedStepRef::convert_to_geth_struct_log, (&step, &opts, depth), log),
        step.detail.memory matches Some(memory) ==> call_ensures(
            crate::detail::RecordedMemory::memory_chunks,
            (&memory,),
            chunks,
        ),
    ensures
        log.stack is Some <==> opts.disable_stack != Some(true) && step.detail.stack is Some,
        log.stack matches Some(stack) ==> stack@ == step.detail.stack->0@,
        log.memory is Some <==> step.detail.memory is Some && (opts.enable_memory == Some(true) || (
        opts.enable_memory is None && opts.disable_memory == Some(false))),
        log.memory matches Some(shown) ==> {
            &&& shown@.len() == chunks@.len()
            &&& forall|i: int| 0 <= i < shown@.len() ==> (#[trigger] shown@[i])@ == chunks@[i]@
        },
{
}

/// The stack is captured unless it is switched off. Memory is captured where it is switched on, or
/// said not to be switched off and not said to be switched on or off.
pub proof fn options_say_what_is_captured(
    opts: GethDefaultTracingOptions,
    stack: bool,
    memory: bool,
)
    requires
        call_ensures(GethDefaultTracingOptions::is_stack_enabled, (&opts,), stack),
        call_ensures(GethDefaultTracingOptions::is_memory_enabled, (&opts,), memory),
    ensures
        stack <==> opts.disable_stack != Some(true),
        memory <==> opts.enable_memory == Some(true) || (opts.enable_memory is None
            && opts.disable_memory == Some(false)),
{
}

/// A copy of a call holds the same.
pub proof fn copied_calls_hold_the_same(trace: CallTrace, copy: CallTrace)
    requires
        call_ensures(<CallTrace as Clone>::clone, (&trace,), copy),
    ensures
        copy.depth == trace.depth,
        copy.success == trace.success,
        copy.caller == trace.caller,
        copy.address == trace.address,
        copy.maybe_precompile == trace.maybe_precompile,
        copy.selfdestruct_address == trace.selfdestruct_address,
        copy.selfdestruct_refund_target == trace.selfdestruct_refund_target,
        copy.selfdestruct_transferred_value == trace.selfdestruct_transferred_value,
        copy.kind == trace.kind,
        copy.value == trace.value,
        bytes_seq(copy.data) == bytes_seq(trace.data),
        bytes_seq(copy.output) == bytes_seq(trace.output),
        copy.gas_used == trace.gas_used,
        copy.gas_limit == trace.gas_limit,
        copy.gas_refund_counter == trace.gas_refund_counter,
        copy.status == trace.status,
        copy.steps@.base == trace.steps@.base,
        copy.steps@.overlay.len() == trace.steps@.overlay.len(),
        forall|k: int|
            0 <= k < copy.steps@.overlay.len() ==> {
                &&& (#[trigger] copy.steps@.overlay[k]).step_index
                    == trace.steps@.overlay[k].step_index
                &&& copy.steps@.overlay[k].detail@ == trace.steps@.overlay[k].detail@
            },
        copy.decoded is Some <==> trace.decoded is Some,
        copy.decoded matches Some(decoded) ==> decoded@ == trace.decoded->0@,
        trace.steps.wf() ==> copy.steps.wf(),
{
}

/// A copy of a node holds the same.
pub proof fn copied_nodes_hold_the_same(node: CallTraceNode, copy: CallTraceNode)
    requires
        call_ensures(<CallTraceNode as Clone>::clone, (&node,), copy),
    ensures
        copy.parent == node.parent,
        copy.children@ == node.children@,
        copy.idx == node.idx,
        copy.ordering@ == node.ordering@,
        copy.logs@.len() == node.logs@.len(),
        forall|i: int|
            0 <= i < copy.logs@.len() ==> {
                let a = #[trigger] copy.logs@[i];
                let b = node.logs@[i];
                &&& a.address == b.address
                &&& log_topics(a.raw_log) == log_topics(b.raw_log)
                &&& log_payload(a.raw_log) == log_payload(b.raw_log)
                &&& a.decoded is Some <==> b.decoded is Some
                &&& a.decoded matches Some(decoded) ==> decoded@ == b.decoded->0@
                &&& a.position == b.position
                &&& a.index == b.index
            },
        copy.trace.depth == node.trace.depth,
        copy.trace.success == node.trace.success,
        copy.trace.caller == node.trace.caller,
        copy.trace.address == node.trace.address,
        copy.trace.maybe_precompile == node.trace.maybe_precompile,
        copy.trace.selfdestruct_address == node.trace.selfdestruct_address,
        copy.trace.selfdestruct_refund_target == node.trace.selfdestruct_refund_target,
        copy.trace.selfdestruct_transferred_value == node.trace.selfdestruct_transferred_value,
        copy.trace.kind == node.trace.kind,
        copy.trace.value == node.trace.value,
        bytes_seq(copy.trace.data) == bytes_seq(node.trace.data),
        bytes_seq(copy.trace.output) == bytes_seq(node.trace.output),
        copy.trace.gas_used == node.trace.gas_used,
        copy.trace.gas_limit == node.trace.gas_limit,
        copy.trace.gas_refund_counter == node.trace.gas_refund_counter,
        copy.trace.status == node.trace.status,
        copy.trace.steps@.base == node.trace.steps@.base,
        copy.trace.steps@.overlay.len() == node.trace.steps@.overlay.len(),
        forall|k: int|
            0 <= k < copy.trace.steps@.overlay.len() ==> {
                &&& (#[trigger] copy.trace.steps@.overlay[k]).step_index
                    == node.trace.steps@.overlay[k].step_index
                &&& copy.trace.steps@.overlay[k].detail@ == node.trace.steps@.overlay[k].detail@
            },
        copy.trace.decoded is Some <==> node.trace.decoded is Some,
        copy.trace.decoded matches Some(decoded) ==> decoded@ == node.trace.decoded->0@,
{
}

/// A blank call and a blank node hold nothing.
pub proof fn blank_calls_hold_nothing(trace: CallTrace, node: CallTraceNode)
    requires
        call_ensures(<CallTrace as Default>::default, (), trace),
        call_ensures(<CallTraceNode as Default>::default, (), node),
    ensures
        forall|t: CallTrace|
            #![trigger t.steps]
            t == trace || t == node.trace ==> {
                &&& t.depth == 0 && !t.success
                &&& known_or_zero(t.caller, None)
                &&& known_or_zero(t.address, None)
                &&& t.maybe_precompile is None
                &&& t.selfdestruct_address is None
                &&& t.selfdestruct_refund_target is None
                &&& t.selfdestruct_transferred_value is None
                &&& t.kind == CallKind::Call
                &&& u256_limbs(t.value) == seq![0u64, 0u64, 0u64, 0u64]
                &&& bytes_seq(t.data).len() == 0
                &&& bytes_seq(t.output).len() == 0
                &&& t.gas_used == 0 && t.gas_limit == 0 && t.gas_refund_counter == 0
                &&& t.status is None
                &&& t.steps.wf()
                &&& t.steps@.base.len() == 0
                &&& t.steps@.overlay.len() == 0
                &&& t.decoded is None
            },
        node.parent is None,
        node.children@.len() == 0,
        node.idx == 0,
        node.logs@.len() == 0,
        node.ordering@.len() == 0,
{
}

} // verus!
