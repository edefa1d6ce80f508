//! Calls, their logs, and what is reported of them.

use std::collections::VecDeque;

use alloy_primitives::{Address, Bytes, FixedBytes, LogData, B256, U256};
use call_trace::decoded::{DecodedCallData, DecodedCallLog, DecodedCallTrace};
use call_trace::detail::StepDetail;
use call_trace::kind::CallKind;
use call_trace::log::{CallLog, Log};
use call_trace::node::{CallTraceNode, CallTraceStepStackItem, TraceMemberOrder};
use call_trace::opcode::{OpCode, CALL, CREATE2, STOP};
use call_trace::parity::{Action, CallType, CreationMethod, SelfdestructAction, TraceOutput};
use call_trace::status::{InstructionResult, TraceStyle};
use call_trace::trace::CallTrace;

const CALLER: Address = Address::repeat_byte(0x01);
const CALLEE: Address = Address::repeat_byte(0x02);
const HEIR: Address = Address::repeat_byte(0x03);

fn node(kind: CallKind, status: Option<InstructionResult>) -> CallTraceNode {
    CallTraceNode {
        trace: CallTrace {
            kind,
            status,
            success: status.map_or(false, |status| status.is_ok()),
            caller: CALLER,
            address: CALLEE,
            value: U256::from(77),
            data: Bytes::from(vec![0xa1, 0xb2, 0xc3, 0xd4, 0xe5]),
            output: Bytes::from(vec![1, 2, 3]),
            gas_limit: 1000,
            gas_used: 400,
            ..Default::default()
        },
        ..Default::default()
    }
}

fn message(status: InstructionResult, style: TraceStyle) -> Option<String> {
    if status.is_ok() {
        return None;
    }
    let style = match style {
        TraceStyle::Parity => "parity",
        TraceStyle::Geth => "geth",
    };
    Some(format!("{style} {}", status.name()))
}

fn reason(output: &[u8]) -> Option<String> {
    Some(format!("{} bytes", output.len()))
}

#[test]
fn a_default_node_is_blank() {
    let node = CallTraceNode::default();
    assert_eq!((node.parent, node.idx, node.children.len()), (None, 0, 0));
    assert_eq!(node.trace.caller, Address::ZERO);
    assert_eq!(node.trace.value, U256::ZERO);
    assert_eq!(node.trace.steps.len(), 0);
    assert_eq!(node.kind(), CallKind::Call);
    assert_eq!(node.status(), None);
    assert_eq!(node.log_count(), 0);
    assert!(!node.is_precompile());
}

#[test]
fn errors_reverts_and_selfdestructs_are_told_apart() {
    let trace = |status| node(CallKind::Call, status).trace;
    assert!(!trace(None).is_error() && !trace(None).is_revert());
    assert!(!trace(Some(InstructionResult::Stop)).is_error());
    let revert = trace(Some(InstructionResult::Revert));
    assert!(revert.is_error() && revert.is_revert());
    let too_deep = trace(Some(InstructionResult::CallTooDeep));
    assert!(too_deep.is_error() && !too_deep.is_revert());
    let halt = trace(Some(InstructionResult::OutOfGas));
    assert!(halt.is_error() && !halt.is_revert());
    let destroyed = trace(Some(InstructionResult::SelfDestruct));
    assert!(destroyed.is_selfdestruct() && !destroyed.is_error());
    let mut created = trace(Some(InstructionResult::Return));
    assert!(!created.is_selfdestruct());
    created.selfdestruct_refund_target = Some(HEIR);
    assert!(created.is_selfdestruct());
}

#[test]
fn error_messages_are_formatted_in_the_style() {
    let trace = node(CallKind::Call, Some(InstructionResult::OutOfGas)).trace;
    assert_eq!(trace.as_error_msg(TraceStyle::Parity, message).unwrap(), "parity OutOfGas");
    assert_eq!(trace.as_error_msg(TraceStyle::Geth, message).unwrap(), "geth OutOfGas");
    let trace = node(CallKind::Call, None).trace;
    assert_eq!(trace.as_error_msg(TraceStyle::Geth, |_, _| Some("x".to_string())), None);
}

#[test]
fn delegated_calls_run_in_the_context_of_the_caller() {
    for (kind, address) in [
        (CallKind::Call, CALLEE),
        (CallKind::StaticCall, CALLEE),
        (CallKind::AuthCall, CALLEE),
        (CallKind::Create, CALLEE),
        (CallKind::Create2, CALLEE),
        (CallKind::DelegateCall, CALLER),
        (CallKind::CallCode, CALLER),
    ] {
        assert_eq!(node(kind, None).execution_address(), address, "{kind:?}");
    }
}

#[test]
fn a_precompile_is_known_as_one() {
    let mut node = node(CallKind::Call, None);
    assert!(!node.is_precompile());
    node.trace.maybe_precompile = Some(false);
    assert!(!node.is_precompile());
    node.trace.maybe_precompile = Some(true);
    assert!(node.is_precompile());
}

#[test]
fn the_selector_is_the_first_four_bytes() {
    let mut node = node(CallKind::Call, None);
    assert_eq!(node.selector(), Some(FixedBytes::from([0xa1, 0xb2, 0xc3, 0xd4])));
    node.trace.data = Bytes::from(vec![9, 8, 7, 6]);
    assert_eq!(node.selector(), Some(FixedBytes::from([9, 8, 7, 6])));
    node.trace.data = Bytes::from(vec![9, 8, 7]);
    assert_eq!(node.selector(), None);
    node.trace.data = Bytes::new();
    assert_eq!(node.selector(), None);
}

#[test]
fn calls_are_reported_to_parity_as_calls() {
    let mut node = node(CallKind::DelegateCall, Some(InstructionResult::Return));
    node.children = vec![4, 5];
    let trace = node.parity_transaction_trace(vec![0, 2], message);
    match &trace.action {
        Action::Call(call) => {
            assert_eq!((call.from, call.to), (CALLER, CALLEE));
            assert_eq!((call.value, call.gas), (U256::from(77), 1000));
            assert_eq!(call.input, node.trace.data);
            assert_eq!(call.call_type, CallType::DelegateCall);
        }
        other => panic!("{other:?}"),
    }
    match trace.result.as_ref().unwrap() {
        TraceOutput::Call(call) => {
            assert_eq!(call.gas_used, 400);
            assert_eq!(call.output, node.trace.output);
        }
        other => panic!("{other:?}"),
    }
    assert_eq!(trace.error, None);
    assert_eq!(trace.subtraces, 2);
    assert_eq!(trace.trace_address, [0, 2]);
}

#[test]
fn creations_are_reported_to_parity_as_creations() {
    let node = node(CallKind::Create2, Some(InstructionResult::Return));
    match node.parity_action() {
        Action::Create(create) => {
            assert_eq!((create.from, create.value, create.gas), (CALLER, U256::from(77), 1000));
            assert_eq!(create.init, node.trace.data);
            assert_eq!(create.creation_method, CreationMethod::Create2);
        }
        other => panic!("{other:?}"),
    }
    match node.parity_trace_output() {
        TraceOutput::Create(create) => {
            assert_eq!((create.gas_used, create.address), (400, CALLEE));
            assert_eq!(create.code, node.trace.output);
        }
        other => panic!("{other:?}"),
    }
}

#[test]
fn parity_has_no_result_for_an_error_that_is_no_revert() {
    let trace = |status| node(CallKind::Call, status).parity_transaction_trace(vec![], message);
    let halted = trace(Some(InstructionResult::OutOfGas));
    assert!(halted.result.is_none());
    assert_eq!(halted.error.unwrap(), "parity OutOfGas");
    let reverted = trace(Some(InstructionResult::Revert));
    assert!(reverted.result.is_some());
    assert_eq!(reverted.error.unwrap(), "parity Revert");
    let too_deep = trace(Some(InstructionResult::CallTooDeep));
    assert!(too_deep.result.is_none());
    let pending = trace(None);
    assert!(pending.result.is_some() && pending.error.is_none());
}

#[test]
fn selfdestructs_are_reported_beside_the_call() {
    let mut node = node(CallKind::Call, Some(InstructionResult::SelfDestruct));
    node.trace.selfdestruct_address = Some(CALLEE);
    node.trace.selfdestruct_refund_target = Some(HEIR);
    node.trace.selfdestruct_transferred_value = Some(U256::from(5));
    assert!(node.is_selfdestruct());
    let expected =
        SelfdestructAction { address: CALLEE, refund_address: HEIR, balance: U256::from(5) };
    assert_eq!(node.parity_selfdestruct_action(), Some(Action::Selfdestruct(expected)));
    let trace = node.parity_selfdestruct_trace(vec![1]).unwrap();
    assert_eq!(trace.action, Action::Selfdestruct(expected));
    assert!(trace.error.is_none() && trace.result.is_none());
    assert_eq!((trace.subtraces, trace.trace_address), (0, vec![1]));
    let frame = node.geth_selfdestruct_call_trace().unwrap();
    assert_eq!(frame.typ, "SELFDESTRUCT");
    assert_eq!((frame.from, frame.to, frame.value), (CALLEE, Some(HEIR), Some(U256::from(5))));
    assert_eq!((frame.gas, frame.gas_used), (U256::ZERO, U256::ZERO));
    assert!(frame.input.is_empty() && frame.output.is_none() && frame.error.is_none());
    assert!(frame.revert_reason.is_none() && frame.calls.is_empty() && frame.logs.is_empty());
    assert!(matches!(node.parity_action(), Action::Call(_)));
}

#[test]
fn unknown_parts_of_a_selfdestruct_are_zero() {
    let node = node(CallKind::Call, Some(InstructionResult::SelfDestruct));
    let expected = SelfdestructAction {
        address: Address::ZERO,
        refund_address: Address::ZERO,
        balance: U256::ZERO,
    };
    assert_eq!(node.parity_selfdestruct_action(), Some(Action::Selfdestruct(expected)));
    let frame = node.geth_selfdestruct_call_trace().unwrap();
    assert_eq!((frame.from, frame.to, frame.value), (Address::ZERO, None, None));
}

#[test]
fn a_call_that_destroyed_nothing_has_no_selfdestruct() {
    let node = node(CallKind::Call, Some(InstructionResult::Return));
    assert_eq!(node.parity_selfdestruct_action(), None);
    assert_eq!(node.parity_selfdestruct_trace(vec![1]), None);
    assert_eq!(node.geth_selfdestruct_call_trace(), None);
}

#[test]
fn geth_frames_of_successful_calls() {
    let node = node(CallKind::Call, Some(InstructionResult::Return));
    let frame = node.geth_empty_call_frame(true, message, reason);
    assert_eq!(frame.typ, "CALL");
    assert_eq!((frame.from, frame.to), (CALLER, Some(CALLEE)));
    assert_eq!(frame.value, Some(U256::from(77)));
    assert_eq!((frame.gas, frame.gas_used), (U256::from(1000), U256::from(400)));
    assert_eq!(frame.input, node.trace.data);
    assert_eq!(frame.output.as_ref(), Some(&node.trace.output));
    assert!(frame.error.is_none() && frame.revert_reason.is_none());
    assert!(frame.calls.is_empty() && frame.logs.is_empty());
}

#[test]
fn geth_frames_of_static_calls_have_no_value() {
    let frame = node(CallKind::StaticCall, Some(InstructionResult::Return))
        .geth_empty_call_frame(false, message, reason);
    assert_eq!(frame.typ, "STATICCALL");
    assert_eq!(frame.value, None);
}

#[test]
fn geth_frames_of_reverted_calls_keep_their_output() {
    let frame = node(CallKind::Call, Some(InstructionResult::Revert))
        .geth_empty_call_frame(false, message, reason);
    assert_eq!(frame.to, Some(CALLEE));
    assert_eq!(frame.gas_used, U256::from(400));
    assert_eq!(frame.output, Some(Bytes::from(vec![1, 2, 3])));
    assert_eq!(frame.error.unwrap(), "geth Revert");
    assert_eq!(frame.revert_reason.unwrap(), "3 bytes");
}

#[test]
fn geth_frames_of_halted_creations_burn_their_gas() {
    let frame = node(CallKind::Create, Some(InstructionResult::OutOfGas))
        .geth_empty_call_frame(false, message, reason);
    assert_eq!(frame.typ, "CREATE");
    assert_eq!(frame.to, None);
    assert_eq!(frame.gas_used, U256::from(1000));
    assert_eq!(frame.output, None);
    assert_eq!(frame.error.unwrap(), "geth OutOfGas");
    assert_eq!(frame.revert_reason.unwrap(), "3 bytes");
}

#[test]
fn geth_frames_without_status_or_output() {
    let mut node = node(CallKind::Call, None);
    let frame = node.geth_empty_call_frame(false, message, reason);
    assert_eq!((frame.gas_used, frame.output), (U256::from(1000), None));
    assert!(frame.error.is_none());
    node.trace.success = true;
    node.trace.output = Bytes::new();
    let frame = node.geth_empty_call_frame(false, message, reason);
    assert_eq!((frame.gas_used, frame.output), (U256::from(400), None));
    assert!(frame.revert_reason.is_none());
}

fn log(byte: u8) -> Log {
    let topics = vec![B256::repeat_byte(byte), B256::repeat_byte(byte + 1)];
    let data = LogData::new(topics, Bytes::from(vec![byte; 3])).unwrap();
    Log { address: Address::repeat_byte(byte), data }
}

#[test]
fn geth_frames_show_logs_on_demand() {
    let mut node = node(CallKind::Call, Some(InstructionResult::Return));
    node.logs.push(CallLog::from(log(0x10)).with_position(2).with_index(6));
    node.logs.push(CallLog::from(log(0x20)));
    assert_eq!(node.log_count(), 2);
    assert!(node.geth_empty_call_frame(false, message, reason).logs.is_empty());
    let frame = node.geth_empty_call_frame(true, message, reason);
    assert_eq!(frame.logs.len(), 2);
    let first = &frame.logs[0];
    assert_eq!(first.address, Some(Address::repeat_byte(0x10)));
    assert_eq!(
        first.topics,
        Some(vec![B256::repeat_byte(0x10), B256::repeat_byte(0x11)])
    );
    assert_eq!(first.data, Some(Bytes::from(vec![0x10; 3])));
    assert_eq!((first.position, first.index), (Some(2), Some(6)));
    let second = &frame.logs[1];
    assert_eq!(second.address, Some(Address::repeat_byte(0x20)));
    assert_eq!((second.position, second.index), (Some(0), Some(0)));
}

#[test]
fn logs_change_nothing_else_of_a_geth_frame() {
    for status in [InstructionResult::Return, InstructionResult::Revert, InstructionResult::OutOfGas]
    {
        let mut node = node(CallKind::Create, Some(status));
        node.logs.push(CallLog::from(log(0x10)));
        node.children = vec![1, 2];
        let mut with_logs = node.geth_empty_call_frame(true, message, reason);
        let without_logs = node.geth_empty_call_frame(false, message, reason);
        assert!(with_logs.calls.is_empty() && without_logs.calls.is_empty());
        assert_eq!((with_logs.logs.len(), without_logs.logs.len()), (1, 0));
        with_logs.logs.clear();
        assert_eq!(with_logs, without_logs);
    }
}

#[test]
fn logs_carry_decoded_data() {
    let mut call_log = CallLog::from(log(0x10));
    assert_eq!(call_log.address, Address::repeat_byte(0x10));
    assert_eq!(call_log.raw_log, log(0x10).data);
    assert_eq!((call_log.position, call_log.index), (0, 0));
    assert!(call_log.decoded.is_none());
    assert_eq!(call_log.decoded_name(), None);
    assert_eq!(call_log.decoded_params(), None);
    assert_eq!(*call_log.decoded(), DecodedCallLog::default());
    assert_eq!(call_log.decoded_name(), None);
    call_log.decoded().name = Some("Transfer".to_string());
    call_log.decoded().params = Some(vec![("to".to_string(), "0x1".to_string())]);
    assert_eq!(call_log.decoded_name(), Some("Transfer"));
    assert_eq!(call_log.decoded_params().unwrap(), [("to".to_string(), "0x1".to_string())]);
    assert_eq!(call_log.clone(), call_log);
}

#[test]
fn traces_carry_decoded_data() {
    let mut trace = node(CallKind::Call, None).trace;
    assert_eq!(trace.decoded_label("fallback"), "fallback");
    assert_eq!(trace.decoded_call_data(), None);
    assert_eq!(trace.decoded_return_data(), None);
    assert_eq!(*trace.decoded(), DecodedCallTrace::default());
    assert_eq!(trace.decoded_label("fallback"), "fallback");
    trace.decoded().label = Some("Token".to_string());
    trace.decoded().return_data = Some("true".to_string());
    let call_data = DecodedCallData {
        signature: "f(uint256)".to_string(),
        args: vec!["1".to_string()],
    };
    trace.decoded().call_data = Some(call_data.clone());
    assert_eq!(trace.decoded_label("fallback"), "Token");
    assert_eq!(trace.decoded_call_data(), Some(&call_data));
    assert_eq!(trace.decoded_return_data(), Some("true"));
    assert_eq!(trace.clone(), trace);
}

/// A node with steps at the given opcodes, of which those at `detailed` were recorded in full.
fn stepped(ops: &[u8], detailed: &[usize], children: &[usize]) -> CallTraceNode {
    let mut node = node(CallKind::Call, Some(InstructionResult::Stop));
    for (idx, op) in ops.iter().enumerate() {
        node.trace.steps.push(idx, OpCode(*op));
        if detailed.contains(&idx) {
            let k = node.trace.steps.push_detail(idx, StepDetail::default());
            node.ordering.push(TraceMemberOrder::Step(k));
        }
    }
    for child in children {
        node.children.push(*child);
        node.ordering.push(TraceMemberOrder::Call(*child));
    }
    node
}

/// The step index and the child of each item, in the order in which they are popped.
fn popped(node: &CallTraceNode) -> Vec<(Option<usize>, Option<usize>)> {
    let mut stack: VecDeque<CallTraceStepStackItem<'_>> = VecDeque::new();
    node.push_steps_on_stack(&mut stack);
    let mut items = Vec::new();
    while let Some(item) = stack.pop_back() {
        assert_eq!(item.trace_node, node);
        items.push((item.step.map(|step| step.step_index), item.call_child_id));
    }
    items
}

const ADD: u8 = 0x01;

#[test]
fn children_are_handed_out_in_execution_order() {
    let node = stepped(&[CALL, ADD, CREATE2, CALL, STOP], &[1, 3], &[7, 8, 9]);
    assert_eq!(
        popped(&node),
        [(None, Some(7)), (Some(1), None), (None, Some(8)), (Some(3), Some(9))]
    );
}

#[test]
fn calls_that_opened_no_frame_have_no_child() {
    let node = stepped(&[CALL, CALL, CALL], &[1, 2], &[7]);
    assert_eq!(popped(&node), [(None, Some(7)), (Some(1), None), (Some(2), None)]);
    let node = stepped(&[ADD, CALL], &[], &[]);
    assert_eq!(popped(&node), []);
}

#[test]
fn children_past_the_last_call_are_not_handed_out() {
    let node = stepped(&[CALL, ADD], &[0, 1], &[7, 8]);
    assert_eq!(popped(&node), [(Some(0), Some(7)), (Some(1), None)]);
}

#[test]
fn items_are_pushed_on_top_of_the_stack() {
    let first = stepped(&[ADD], &[0], &[]);
    let second = stepped(&[ADD, ADD], &[0, 1], &[]);
    let mut stack: VecDeque<CallTraceStepStackItem<'_>> = VecDeque::new();
    first.push_steps_on_stack(&mut stack);
    second.push_steps_on_stack(&mut stack);
    assert_eq!(stack.len(), 3);
    let indices: Vec<usize> =
        stack.iter().map(|item| item.step.unwrap().step_index).collect();
    assert_eq!(indices, [0, 1, 0]);
    assert_eq!(stack[0].trace_node, &first);
}

#[test]
fn clearing_details_keeps_calls_logs_and_children() {
    let mut node = stepped(&[CALL, ADD], &[0, 1], &[7]);
    node.ordering.insert(1, TraceMemberOrder::Log(0));
    let before = node.clone();
    assert_eq!(before, node);
    node.clear_step_details();
    assert_eq!(node.ordering, [TraceMemberOrder::Log(0), TraceMemberOrder::Call(7)]);
    assert_eq!((node.trace.step_count(), node.trace.detailed_step_count()), (2, 0));
    assert_eq!(popped(&node), [(None, Some(7))]);

    let once = node.clone();
    node.clear_step_details();
    assert_eq!(node, once);

    node.clear_steps();
    let mut at_once = before.clone();
    at_once.clear_steps();
    assert_eq!(node, at_once);
    assert_eq!(node.ordering, once.ordering);
    assert_eq!(node.trace.caller, before.trace.caller);
}
