//! Step recording: the `(pc, op)` base track, the detail overlay, and switching full recording on
//! and off while a transaction executes.

use std::collections::VecDeque;

use alloy_primitives::{Address, Bytes, U256};
use call_trace::detail::{RecordedMemory, StepDetail};
use call_trace::geth::{GethDefaultTracingOptions, StructLog};
use call_trace::node::{CallTraceNode, CallTraceStepStackItem, TraceMemberOrder};
use call_trace::opcode::OpCode;
use call_trace::status::InstructionResult;
use call_trace::store::{DetailedStepRef, StepRef, StepStore, StepStoreError};
use call_trace::trace::CallTrace;
use revm::{
    bytecode::opcode,
    context::{BlockEnv, CfgEnv, TxEnv},
    context_interface::TransactTo,
    database::CacheDB,
    database_interface::EmptyDB,
    interpreter::{
        interpreter::EthInterpreter,
        interpreter_types::{Jumps, LoopControl},
        CallInputs, CallOutcome, Interpreter,
    },
    primitives::hardfork::SpecId,
    state::{AccountInfo, Bytecode},
    Context, InspectEvm, Inspector, Journal, MainBuilder, MainContext,
};

/// A loop that counts down from 10 000, executing seven opcodes per iteration:
///
/// ```text
/// PUSH2 0x2710          // counter
/// JUMPDEST              // offset 3
/// PUSH1 1
/// SWAP1
/// SUB
/// DUP1
/// PUSH1 3
/// JUMPI
/// STOP
/// ```
const LOOP_CODE: [u8; 13] =
    [0x61, 0x27, 0x10, 0x5b, 0x60, 0x01, 0x90, 0x03, 0x80, 0x60, 0x03, 0x57, 0x00];
const LOOP_ITERATIONS: usize = 10_000;
/// `PUSH2`, then seven opcodes per iteration, then `STOP`.
const LOOP_STEPS: usize = 1 + 7 * LOOP_ITERATIONS + 1;
const CONTRACT: Address = Address::repeat_byte(0x42);
const CALLER: Address = Address::repeat_byte(0x01);

/// How much is recorded of each step.
#[derive(Clone, Copy, PartialEq, Eq)]
enum StepRecording {
    Off,
    PcAndOp,
    Full,
}

/// Records the calls of a transaction and their steps.
struct Recorder {
    level: StepRecording,
    nodes: Vec<CallTraceNode>,
    frames: Vec<usize>,
    /// The step being executed has a detail record to complete.
    pending: bool,
}

impl Recorder {
    fn new(level: StepRecording) -> Self {
        Recorder { level, nodes: Vec::new(), frames: Vec::new(), pending: false }
    }

    fn current(&mut self) -> &mut CallTraceNode {
        let idx = *self.frames.last().unwrap();
        &mut self.nodes[idx]
    }

    fn begin_call(&mut self) {
        let idx = self.nodes.len();
        let parent = self.frames.last().copied();
        if let Some(parent) = parent {
            self.nodes[parent].children.push(idx);
            self.nodes[parent].ordering.push(TraceMemberOrder::Call(idx));
        }
        let trace = CallTrace { depth: self.frames.len(), ..Default::default() };
        self.nodes.push(CallTraceNode { parent, idx, trace, ..Default::default() });
        self.frames.push(idx);
    }

    fn end_call(&mut self) {
        self.frames.pop();
    }

    fn step(&mut self, interp: &mut Interpreter) {
        self.pending = false;
        let level = self.level;
        if level == StepRecording::Off {
            return;
        }
        let (pc, op) = (interp.bytecode.pc(), OpCode::new_or_unknown(interp.bytecode.opcode()));
        let step_index = self.current().trace.steps.push(pc, op);
        if level == StepRecording::Full {
            let detail = StepDetail {
                stack: Some(interp.stack.data().clone().into_boxed_slice()),
                memory: Some(RecordedMemory::new(&interp.memory.context_memory())),
                gas_remaining: interp.gas.remaining(),
                ..Default::default()
            };
            let k = self.current().trace.steps.push_detail(step_index, detail);
            self.current().ordering.push(TraceMemberOrder::Step(k));
            self.pending = true;
        }
    }

    fn step_end(&mut self, interp: &mut Interpreter) {
        if !self.pending {
            return;
        }
        self.pending = false;
        let status = interp.bytecode.instruction_result().map(outcome_named);
        let remaining = interp.gas.remaining();
        let steps = &mut self.current().trace.steps;
        let last = steps.len() - 1;
        let (step_index, detail) = steps.last_detail_mut().unwrap();
        assert_eq!(step_index, last);
        detail.gas_cost = detail.gas_remaining - remaining;
        detail.status = status;
    }
}

/// The outcome with the name of one of the interpreter's.
fn outcome_named(result: revm::interpreter::InstructionResult) -> InstructionResult {
    match result {
        revm::interpreter::InstructionResult::Stop => InstructionResult::Stop,
        revm::interpreter::InstructionResult::Return => InstructionResult::Return,
        other => panic!("{other:?} does not occur here"),
    }
}

impl<CTX> Inspector<CTX, EthInterpreter> for Recorder {
    fn step(&mut self, interp: &mut Interpreter, _: &mut CTX) {
        Recorder::step(self, interp);
    }

    fn step_end(&mut self, interp: &mut Interpreter, _: &mut CTX) {
        Recorder::step_end(self, interp);
    }

    fn call(&mut self, _: &mut CTX, _: &mut CallInputs) -> Option<CallOutcome> {
        self.begin_call();
        None
    }

    fn call_end(&mut self, _: &mut CTX, _: &CallInputs, _: &mut CallOutcome) {
        self.end_call();
    }
}

/// Runs `inspector` over a call to `CONTRACT` holding `code`, plus the given extra accounts.
fn run_code<INSP>(inspector: INSP, code: Bytes, extra: &[(Address, Bytes)]) -> INSP
where
    INSP: Inspector<
        Context<BlockEnv, TxEnv, CfgEnv, CacheDB<EmptyDB>, Journal<CacheDB<EmptyDB>>, ()>,
    >,
{
    let mut db = CacheDB::new(EmptyDB::default());
    for (address, code) in core::iter::once(&(CONTRACT, code)).chain(extra) {
        db.insert_account_info(
            *address,
            AccountInfo { code: Some(Bytecode::new_raw(code.clone())), ..Default::default() },
        );
    }
    db.insert_account_info(
        CALLER,
        AccountInfo { balance: U256::from(u64::MAX), ..Default::default() },
    );
    let context = Context::mainnet().with_db(db).modify_cfg_chained(|c| c.spec = SpecId::CANCUN);
    let mut evm = context.build_mainnet_with_inspector(inspector);
    let res = evm
        .inspect_tx(TxEnv {
            caller: CALLER,
            gas_limit: 10_000_000,
            kind: TransactTo::Call(CONTRACT),
            ..Default::default()
        })
        .unwrap();
    assert!(res.result.is_success(), "{res:?}");
    evm.into_inspector()
}

fn run<INSP>(inspector: INSP) -> INSP
where
    INSP: Inspector<
        Context<BlockEnv, TxEnv, CfgEnv, CacheDB<EmptyDB>, Journal<CacheDB<EmptyDB>>, ()>,
    >,
{
    run_code(inspector, Bytes::from_static(&LOOP_CODE), &[])
}

fn step_ordering_entries(recorder: &Recorder) -> usize {
    recorder.nodes[0]
        .ordering
        .iter()
        .filter(|item| matches!(item, TraceMemberOrder::Step(_)))
        .count()
}

fn all_steps(trace: &CallTrace) -> Vec<StepRef<'_>> {
    let mut steps = trace.iter_steps();
    core::iter::from_fn(|| steps.next()).collect()
}

fn all_detailed_steps(trace: &CallTrace) -> Vec<DetailedStepRef<'_>> {
    let mut steps = trace.iter_detailed_steps();
    core::iter::from_fn(|| steps.next()).collect()
}

#[test]
fn pc_and_op_records_every_step_and_no_details() {
    let recorder = run(Recorder::new(StepRecording::PcAndOp));
    let trace = &recorder.nodes[0].trace;

    assert_eq!(trace.step_count(), LOOP_STEPS);
    assert_eq!(trace.steps.detailed_len(), 0);
    assert_eq!(step_ordering_entries(&recorder), 0);
    // The first step is the `PUSH2` at pc 0, the last the `STOP` at pc 12.
    let first = trace.iter_steps().next().unwrap();
    assert_eq!((first.pc, first.op.get()), (0, opcode::PUSH2));
    let last = trace.iter_steps().next_back().unwrap();
    assert_eq!((last.pc, last.op.get()), (12, opcode::STOP));
    assert!(all_steps(trace).iter().all(|step| step.detail().is_none()));
    // Five bytes per step, plus whatever capacity the vectors grew to.
    assert!(trace.steps.bytes() >= 5 * LOOP_STEPS);
    assert!(trace.steps.bytes() <= 2 * 5 * LOOP_STEPS);
}

#[test]
fn full_records_a_detail_for_every_step() {
    let recorder = run(Recorder::new(StepRecording::Full));
    let trace = &recorder.nodes[0].trace;

    assert_eq!(trace.step_count(), LOOP_STEPS);
    assert_eq!(trace.steps.detailed_len(), LOOP_STEPS);
    assert_eq!(step_ordering_entries(&recorder), LOOP_STEPS);
    for (idx, step) in all_detailed_steps(trace).into_iter().enumerate() {
        assert_eq!(step.step_index, idx);
        assert_eq!(trace.detailed_step(idx).unwrap().pc, step.pc);
        // `step_end` filled the detail: every opcode of the loop but `STOP` costs gas.
        assert!(step.gas_cost > 0 || step.op.get() == opcode::STOP);
    }
    assert!(trace.last_detailed_step().unwrap().status.is_some(), "`STOP` records its status");
}

/// Switches the recorder between `PcAndOp` and `Full` from inside the step hook, the way a
/// cheatcode does from inside a call.
struct Switching {
    recorder: Recorder,
    seen: usize,
    window: core::ops::Range<usize>,
}

impl<CTX> Inspector<CTX, EthInterpreter> for Switching {
    fn step(&mut self, interp: &mut Interpreter, _: &mut CTX) {
        self.recorder.level = if self.window.contains(&self.seen) {
            StepRecording::Full
        } else {
            StepRecording::PcAndOp
        };
        self.seen += 1;
        self.recorder.step(interp);
    }

    fn step_end(&mut self, interp: &mut Interpreter, _: &mut CTX) {
        self.recorder.step_end(interp);
    }

    fn call(&mut self, _: &mut CTX, _: &mut CallInputs) -> Option<CallOutcome> {
        self.recorder.begin_call();
        None
    }

    fn call_end(&mut self, _: &mut CTX, _: &CallInputs, _: &mut CallOutcome) {
        self.recorder.end_call();
    }
}

#[test]
fn full_recording_switched_on_mid_transaction_overlays_a_window() {
    let window = 100..250;
    let switching = run(Switching {
        recorder: Recorder::new(StepRecording::PcAndOp),
        seen: 0,
        window: window.clone(),
    });
    let trace = &switching.recorder.nodes[0].trace;

    // The base track is complete across the switch.
    assert_eq!(trace.step_count(), LOOP_STEPS);
    // The detail overlay covers exactly the window, in order.
    assert_eq!(trace.steps.detailed_len(), window.len());
    let detailed = all_detailed_steps(trace);
    let indices: Vec<usize> = detailed.iter().map(|step| step.step_index).collect();
    assert_eq!(indices, window.clone().collect::<Vec<_>>());
    // Only detailed steps have ordering entries, and they index the overlay.
    assert_eq!(step_ordering_entries(&switching.recorder), window.len());
    let steps = all_steps(trace);
    for (k, step) in detailed.into_iter().enumerate() {
        assert_eq!(trace.detailed_step(k).unwrap().pc, step.pc);
        assert_eq!(steps[step.step_index].pc, step.pc);
        assert!(step.gas_cost > 0, "`step_end` filled the detail");
    }
    // Steps outside the window carry no detail.
    assert!(steps
        .iter()
        .enumerate()
        .all(|(idx, step)| step.detail().is_some() == window.contains(&idx)));
}

const CALLEE_B: Address = Address::repeat_byte(0x43);
const CALLEE_C: Address = Address::repeat_byte(0x44);

/// `CALL(gas = 0x2710, to, 0, 0, 0, 0, 0)` then `POP`: nine steps.
fn call_and_pop(to: Address) -> Vec<u8> {
    let mut code = vec![
        opcode::PUSH1,
        0,
        opcode::PUSH1,
        0,
        opcode::PUSH1,
        0,
        opcode::PUSH1,
        0,
        opcode::PUSH1,
        0,
        opcode::PUSH20,
    ];
    code.extend_from_slice(to.as_slice());
    code.extend_from_slice(&[opcode::PUSH2, 0x27, 0x10, opcode::CALL, opcode::POP]);
    code
}

/// The struct logs of a transaction, in execution order across its frames.
fn struct_logs(nodes: &[CallTraceNode], opts: &GethDefaultTracingOptions) -> Vec<StructLog> {
    let mut logs = Vec::new();
    let mut stack: VecDeque<CallTraceStepStackItem<'_>> = VecDeque::new();
    nodes[0].push_steps_on_stack(&mut stack);
    while let Some(item) = stack.pop_back() {
        if let Some(step) = item.step {
            let depth = item.trace_node.trace.depth as u64 + 1;
            logs.push(step.convert_to_geth_struct_log(opts, depth));
        }
        if let Some(child) = item.call_child_id {
            nodes[child].push_steps_on_stack(&mut stack);
        }
    }
    logs
}

/// Full recording switched on inside the first callee: a call executed while only the base track
/// was recorded must still push its child frame, and the second call must be attributed to the
/// second child, not the first.
#[test]
fn child_frames_are_attributed_across_a_partial_window() {
    // A: call B, call C, stop: 19 steps.
    let mut caller = call_and_pop(CALLEE_B);
    caller.extend(call_and_pop(CALLEE_C));
    caller.push(opcode::STOP);
    let callee_b = vec![opcode::JUMPDEST, opcode::STOP]; // 2 steps
    let callee_c = vec![opcode::PC, opcode::POP, opcode::STOP]; // 3 steps

    // Steps are counted across frames: A's first eight steps (0..8, ending with `CALL`) run
    // before B's (8, 9); the window opens on B's first step.
    let window = 8..usize::MAX;
    let switching = run_code(
        Switching { recorder: Recorder::new(StepRecording::PcAndOp), seen: 0, window },
        caller.into(),
        &[(CALLEE_B, callee_b.into()), (CALLEE_C, callee_c.into())],
    );
    let nodes = &switching.recorder.nodes;
    assert_eq!(nodes.len(), 3);
    assert_eq!(nodes[0].trace.step_count(), 19);
    // A's steps after the first `CALL`: `POP`, the second call's eight opcodes, `POP`, `STOP`.
    assert_eq!(nodes[0].trace.detailed_step_count(), 11);
    assert_eq!(nodes[1].trace.detailed_step_count(), 2);
    assert_eq!(nodes[2].trace.detailed_step_count(), 3);
    assert_eq!(nodes[1].trace.step_count(), 2);
    assert_eq!(nodes[2].trace.step_count(), 3);

    let logs: Vec<(u64, u64)> = struct_logs(nodes, &GethDefaultTracingOptions::default())
        .iter()
        .map(|log| (log.depth, log.pc))
        .collect();
    // B's two steps (depth 2), A's POP and second call (depth 1), C's three steps (depth 2),
    // and A's POP and STOP.
    let mut expected = vec![(2, 0), (2, 1)];
    // A's `POP` at pc 35, and the second call's opcodes up to its `CALL` at pc 70.
    expected.extend([35, 36, 38, 40, 42, 44, 46, 67, 70].into_iter().map(|pc| (1, pc)));
    expected.extend([(2, 0), (2, 1), (2, 2), (1, 71), (1, 72)]);
    assert_eq!(logs, expected);
}

/// Raises the recording level to `Full` from inside `step_end`, i.e. after `step` already ran
/// for the same instruction under `PcAndOp`.
struct LateSwitch {
    recorder: Recorder,
    seen: usize,
    window: core::ops::Range<usize>,
    raise_at: usize,
}

impl<CTX> Inspector<CTX, EthInterpreter> for LateSwitch {
    fn step(&mut self, interp: &mut Interpreter, _: &mut CTX) {
        if self.seen < self.raise_at {
            self.recorder.level = if self.window.contains(&self.seen) {
                StepRecording::Full
            } else {
                StepRecording::PcAndOp
            };
        }
        self.seen += 1;
        self.recorder.step(interp);
    }

    fn step_end(&mut self, interp: &mut Interpreter, _: &mut CTX) {
        if self.seen == self.raise_at + 1 {
            self.recorder.level = StepRecording::Full;
        }
        self.recorder.step_end(interp);
    }

    fn call(&mut self, _: &mut CTX, _: &mut CallInputs) -> Option<CallOutcome> {
        self.recorder.begin_call();
        None
    }

    fn call_end(&mut self, _: &mut CTX, _: &CallInputs, _: &mut CallOutcome) {
        self.recorder.end_call();
    }
}

#[test]
fn full_recording_raised_between_step_and_step_end_leaves_older_details_alone() {
    let window = 100..250;
    let raise_at = 300;
    let switching = run(LateSwitch {
        recorder: Recorder::new(StepRecording::PcAndOp),
        seen: 0,
        window: window.clone(),
        raise_at,
    });
    let trace = &switching.recorder.nodes[0].trace;

    assert_eq!(trace.step_count(), LOOP_STEPS);
    // The window, and everything from the step after the late switch.
    let indices: Vec<usize> =
        all_detailed_steps(trace).iter().map(|step| step.step_index).collect();
    let expected: Vec<usize> = window.clone().chain(raise_at + 1..LOOP_STEPS).collect();
    assert_eq!(indices, expected);
    // The window's last detail was not refilled by the late switch's `step_end`.
    let last_of_window = trace.detailed_step(window.len() - 1).unwrap();
    assert_eq!(last_of_window.step_index, window.end - 1);
    assert!(last_of_window.gas_cost > 0);
}

/// Changes the recording level from the inspector hooks, as scripted per step index.
struct Scripted {
    recorder: Recorder,
    seen: usize,
    /// Level to switch to before the `n`-th step's `step`.
    on_step: fn(usize) -> Option<StepRecording>,
    /// Level to switch to before the `n`-th step's `step_end`.
    on_step_end: fn(usize) -> Option<StepRecording>,
    /// Level to switch to in the `call` hook.
    on_call: Option<StepRecording>,
}

impl Scripted {
    fn set(&mut self, level: Option<StepRecording>) {
        if let Some(level) = level {
            self.recorder.level = level;
        }
    }
}

impl<CTX> Inspector<CTX, EthInterpreter> for Scripted {
    fn step(&mut self, interp: &mut Interpreter, _: &mut CTX) {
        self.set((self.on_step)(self.seen));
        self.recorder.step(interp);
    }

    fn step_end(&mut self, interp: &mut Interpreter, _: &mut CTX) {
        self.set((self.on_step_end)(self.seen));
        self.seen += 1;
        self.recorder.step_end(interp);
    }

    fn call(&mut self, _: &mut CTX, _: &mut CallInputs) -> Option<CallOutcome> {
        self.set(self.on_call);
        self.recorder.begin_call();
        None
    }

    fn call_end(&mut self, _: &mut CTX, _: &CallInputs, _: &mut CallOutcome) {
        self.recorder.end_call();
    }
}

/// A detail pushed under `Full` is completed by `step_end` even if the level was lowered between
/// the two hooks.
#[test]
fn full_recording_lowered_between_step_and_step_end_completes_the_detail() {
    let scripted = run(Scripted {
        recorder: Recorder::new(StepRecording::PcAndOp),
        seen: 0,
        on_step: |n| (n == 200).then_some(StepRecording::Full),
        on_step_end: |n| (n == 200).then_some(StepRecording::PcAndOp),
        on_call: None,
    });
    let trace = &scripted.recorder.nodes[0].trace;

    assert_eq!(trace.step_count(), LOOP_STEPS);
    assert_eq!(trace.detailed_step_count(), 1);
    let step = trace.detailed_step(0).unwrap();
    assert_eq!(step.step_index, 200);
    // Step 200 is inside the loop, not a free `STOP`, so a completed record has a gas cost.
    assert!(step.gas_cost > 0);
}

/// Raising the level from `Off` (in a frame hook, before any step of the new frame, or between
/// a step's two hooks) completes nothing: the previous detail record is left as it was, and an
/// empty frame does not trip the completion.
#[test]
fn raising_from_none_completes_no_stale_detail() {
    let mut caller = call_and_pop(CALLEE_B);
    caller.push(opcode::STOP);
    let scripted = run_code(
        Scripted {
            recorder: Recorder::new(StepRecording::Full),
            seen: 0,
            // Record the first step in full, nothing after it, and raise between step 5's hooks
            // and again in the `call` hook that opens B's frame.
            on_step: |n| (n == 1).then_some(StepRecording::Off),
            on_step_end: |n| (n == 5).then_some(StepRecording::Full),
            on_call: Some(StepRecording::Full),
        },
        Bytes::from(caller),
        &[(CALLEE_B, Bytes::from(vec![opcode::JUMPDEST, opcode::STOP]))],
    );
    let nodes = &scripted.recorder.nodes;

    // A's first step (`PUSH1`) keeps the gas cost of a single `PUSH1`, and the steps recorded
    // in full after the raise are complete.
    let first = nodes[0].trace.detailed_step(0).unwrap();
    assert_eq!(first.step_index, 0);
    assert_eq!(first.gas_cost, 3);
    for node in nodes {
        for step in all_detailed_steps(&node.trace) {
            assert!(step.gas_cost > 0 || step.op.get() == opcode::STOP, "{step:?}");
        }
    }
    assert_eq!(nodes[1].trace.step_count(), 2);
    assert_eq!(nodes[1].trace.detailed_step_count(), 2);
}

#[test]
fn clearing_steps_and_step_details() {
    let recorder = run(Recorder::new(StepRecording::Full));
    let mut node = recorder.nodes[0].clone();
    assert_eq!(node.trace.detailed_step_count(), LOOP_STEPS);

    node.clear_step_details();
    assert_eq!(node.trace.step_count(), LOOP_STEPS);
    assert_eq!(node.trace.detailed_step_count(), 0);
    assert!(!node.ordering.iter().any(|item| matches!(item, TraceMemberOrder::Step(_))));

    node.clear_steps();
    assert_eq!(node.trace.step_count(), 0);
}

#[test]
fn deserialization_validates_the_store() {
    let switching = run(Switching {
        recorder: Recorder::new(StepRecording::PcAndOp),
        seen: 0,
        window: 10..20,
    });
    let steps = &switching.recorder.nodes[0].trace.steps;

    let columns = || steps.clone().into_columns();
    let (pcs, ops, detail_steps, details) = columns();
    let roundtrip = StepStore::from_columns(pcs, ops, detail_steps, details).unwrap();
    assert_eq!(&roundtrip, steps);

    let (pcs, mut short_ops, detail_steps, details) = columns();
    short_ops.pop();
    assert_eq!(
        StepStore::from_columns(pcs, short_ops, detail_steps, details),
        Err(StepStoreError::OpsLength)
    );

    let (pcs, ops, mut unsorted, details) = columns();
    unsorted.swap(0, 1);
    assert_eq!(
        StepStore::from_columns(pcs, ops, unsorted, details),
        Err(StepStoreError::DetailStepsOrder)
    );

    let (pcs, ops, mut out_of_track, details) = columns();
    out_of_track[0] = LOOP_STEPS as u32;
    assert_eq!(
        StepStore::from_columns(pcs, ops, out_of_track, details),
        Err(StepStoreError::DetailStepsOrder)
    );
}
