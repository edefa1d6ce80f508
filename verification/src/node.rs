//! A call in the tree of calls.

use std::collections::VecDeque;

use alloy_primitives::{Address, Bytes, FixedBytes};
use vstd::prelude::*;

use crate::geth::{CallFrame, CallLogFrame};
use crate::kind::CallKind;
use crate::log::CallLog;
use crate::opcode::call_like;
use crate::parity::{
    Action, CallAction, CallOutput, CallType, CreateAction, CreateOutput, CreationMethod,
    SelfdestructAction, TraceOutput, TransactionTrace,
};
use crate::primitives::{
    address_zero, bytes_as_slice, bytes_seq, is_address_or_zero, is_word, is_word_or_zero,
    log_payload, log_topics, payload_of, same_bytes, selector_bytes, selector_from_slice,
    topics_to_vec, u256_from_u64, u256_zero,
};
use crate::status::{InstructionResult, TraceStyle};
use crate::store::{DetailedStepRef, DetailedStepView, StepStore, StepTracks};
use crate::trace::CallTrace;

verus! {

/// Ordering enum for calls, logs and steps
#[derive(Clone, Copy, Debug, PartialEq, Eq, Structural)]
pub enum TraceMemberOrder {
    /// Contains the index of the corresponding log
    Log(usize),
    /// Contains the index of the corresponding trace node
    Call(usize),
    /// Contains the index of the corresponding step in the call's detail overlay; only steps
    /// recorded in full get an entry. See [`StepStore::detailed`].
    Step(usize),
}

/// The entries of an ordering that are no steps, in order.
pub open spec fn non_step_entries(ordering: Seq<TraceMemberOrder>) -> Seq<TraceMemberOrder> {
    ordering.filter(|item: TraceMemberOrder| !(item is Step))
}

/// A node in the arena
#[derive(Debug, PartialEq, Eq)]
pub struct CallTraceNode {
    /// Parent node index in the arena
    pub parent: Option<usize>,
    /// Children node indexes in the arena
    pub children: Vec<usize>,
    /// This node's index in the arena
    pub idx: usize,
    /// The call trace
    pub trace: CallTrace,
    /// Recorded logs, if enabled
    pub logs: Vec<CallLog>,
    /// Ordering of child calls and logs
    pub ordering: Vec<TraceMemberOrder>,
}

/// A step of a node, or the child frame that it opened, on a stack of steps to report.
pub struct CallTraceStepStackItem<'a> {
    /// The trace node that contains this step
    pub trace_node: &'a CallTraceNode,
    /// The step that this stack item represents
    ///
    /// `None` for a call-like step that was not recorded in full but has a child frame to push.
    pub step: Option<DetailedStepRef<'a>>,
    /// The index of the child call in the arena if this step's opcode is a call
    pub call_child_id: Option<usize>,
}

/// The contents of a [`CallTraceStepStackItem`].
pub struct StackItemView {
    /// The trace node that contains the step
    pub trace_node: CallTraceNode,
    /// The step, if it was recorded in full
    pub step: Option<DetailedStepView>,
    /// The child frame that the step opened
    pub call_child_id: Option<usize>,
}

impl<'a> View for CallTraceStepStackItem<'a> {
    type V = StackItemView;

    open spec fn view(&self) -> StackItemView {
        StackItemView {
            trace_node: *self.trace_node,
            step: match self.step {
                Some(step) => Some(step@),
                None => None,
            },
            call_child_id: self.call_child_id,
        }
    }
}

/// How many of the first `n` steps are call-like.
pub open spec fn call_like_count(tracks: StepTracks, n: int) -> nat
    decreases n,
{
    if n <= 0 {
        0
    } else if call_like(tracks.base[n - 1].op) {
        call_like_count(tracks, n - 1) + 1
    } else {
        call_like_count(tracks, n - 1)
    }
}

impl CallTraceNode {
    /// The child frame that the step `i` opened: the call-like steps open the children in
    /// execution order, and those past the last child opened none.
    pub open spec fn child_of(&self, i: int) -> Option<usize> {
        let position = call_like_count(self.trace.steps@, i);
        if call_like(self.trace.steps@.base[i].op) && position < self.children@.len() {
            Some(self.children@[position as int])
        } else {
            None
        }
    }

    /// The step `i` is reported, or the child frame that it opened is.
    pub open spec fn reported(&self, i: int) -> bool {
        self.trace.steps@.detail_of(i) is Some || self.child_of(i) is Some
    }

    /// What is reported of the step `i`.
    pub open spec fn item(&self, i: int) -> StackItemView {
        StackItemView {
            trace_node: *self,
            step: self.trace.steps@.step(i).detailed(),
            call_child_id: self.child_of(i),
        }
    }

    /// What is reported of the first `n` steps, in execution order.
    pub open spec fn items(&self, n: int) -> Seq<StackItemView>
        decreases n,
    {
        if n <= 0 {
            Seq::empty()
        } else if self.reported(n - 1) {
            self.items(n - 1).push(self.item(n - 1))
        } else {
            self.items(n - 1)
        }
    }

    /// Pushes all steps onto the stack in reverse order
    /// so that the first step is on top of the stack
    ///
    /// A step recorded in full becomes an item; a call-like step that was not still has to push
    /// its child frame, whose steps may have been recorded in full.
    ///
    /// Children are attributed to call-like steps in execution order, counted over the whole
    /// base track so that a call executed outside a full-recording window still advances to
    /// the next child. A call-like step without a child is one that reverted or ran out of gas
    /// before a frame was opened: <https://github.com/paradigmxyz/reth/issues/3915>.
    pub fn push_steps_on_stack<'a>(&'a self, stack: &mut VecDeque<CallTraceStepStackItem<'a>>)
        requires
            self.trace.steps.wf(),
        ensures
            final(stack)@.len() == old(stack)@.len() + self.items(
                self.trace.steps@.base.len() as int,
            ).len(),
            final(stack)@.take(old(stack)@.len() as int) == old(stack)@,
            forall|j: int|
                0 <= j < self.items(self.trace.steps@.base.len() as int).len() ==> (
                #[trigger] final(stack)@[final(stack)@.len() - 1 - j])@ == self.items(
                    self.trace.steps@.base.len() as int,
                )[j],
    {
        let ghost tracks = self.trace.steps@;
        let ghost n = tracks.base.len() as int;
        proof {
            self.trace.steps.lemma_len_fits();
        }
        let mut call_like_steps: usize = 0;
        let mut steps = self.trace.iter_steps();
        let ghost mut seen: int = 0;
        loop
            invariant
                steps.wf(),
                tracks == self.trace.steps@,
                n == tracks.base.len(),
                n <= usize::MAX,
                0 <= seen <= n,
                steps@ == tracks.steps().skip(seen),
                call_like_steps == call_like_count(tracks, seen),
                call_like_steps <= seen,
            ensures
                call_like_steps == call_like_count(tracks, n),
            decreases n - seen,
        {
            match steps.next() {
                Some(step) => {
                    assert(step@ == tracks.step(seen));
                    if step.is_call_like_op() {
                        call_like_steps = call_like_steps + 1;
                    }
                    proof {
                        assert(tracks.steps().skip(seen).drop_first() =~= tracks.steps().skip(
                            seen + 1,
                        ));
                        seen = seen + 1;
                    }
                },
                None => {
                    break;
                },
            }
        }
        // Walking the steps backwards, the children are handed out from the last attributed one
        // down.
        let mut child_id: usize = if call_like_steps < self.children.len() {
            call_like_steps
        } else {
            self.children.len()
        };
        let mut unattributed: usize = call_like_steps - child_id;
        let mut steps = self.trace.iter_steps();
        let ghost mut left: int = n;
        let ghost all = self.items(n);
        assert(tracks.steps().take(n) =~= tracks.steps());
        loop
            invariant
                steps.wf(),
                tracks == self.trace.steps@,
                n == tracks.base.len(),
                0 <= left <= n,
                all == self.items(n),
                steps@ == tracks.steps().take(left),
                child_id + unattributed == call_like_count(tracks, left),
                child_id <= self.children@.len(),
                unattributed > 0 ==> child_id == self.children@.len(),
                self.items(left).len() <= all.len(),
                all.take(self.items(left).len() as int) == self.items(left),
                stack@.len() == old(stack)@.len() + all.len() - self.items(left).len(),
                stack@.take(old(stack)@.len() as int) == old(stack)@,
                forall|j: int|
                    old(stack)@.len() <= j < stack@.len() ==> (#[trigger] stack@[j])@ == all[
                        all.len() - 1 - (j - old(stack)@.len())],
            ensures
                left == 0,
            decreases left,
        {
            let ghost before = stack@;
            match steps.next_back() {
                Some(step) => {
                    let ghost i = left - 1;
                    assert(step@ == tracks.step(i));
                    let mut call_child_id: Option<usize> = None;
                    if step.is_call_like_op() {
                        if unattributed > 0 {
                            unattributed = unattributed - 1;
                        } else {
                            child_id = child_id - 1;
                            call_child_id = Some(self.children[child_id]);
                        }
                    }
                    assert(call_child_id == self.child_of(i));
                    let step = step.detailed();
                    if step.is_some() || call_child_id.is_some() {
                        assert(self.reported(i));
                        let item = CallTraceStepStackItem { trace_node: self, step, call_child_id };
                        assert(item@ == self.item(i));
                        stack.push_back(item);
                    }
                    proof {
                        assert(tracks.steps().take(left).drop_last() =~= tracks.steps().take(i));
                        assert(all.take(self.items(i).len() as int) =~= self.items(i)) by {
                            assert(all.take(self.items(left).len() as int) == self.items(left));
                            assert forall|j: int| 0 <= j < self.items(i).len() implies all[j]
                                == self.items(i)[j] by {
                                assert(all.take(self.items(left).len() as int)[j] == all[j]);
                            }
                        }
                        if self.reported(i) {
                            let p = self.items(i).len() as int;
                            assert(all.take(self.items(left).len() as int)[p] == all[p]);
                            assert(all[p] == self.item(i));
                        }
                        assert(stack@.take(old(stack)@.len() as int) =~= before.take(
                            old(stack)@.len() as int,
                        ));
                        left = i;
                    }
                },
                None => {
                    assert(left == 0);
                    break;
                },
            }
        }
        assert(self.items(0).len() == 0);
    }

    /// The two nodes hold the same contents.
    pub open spec fn same_contents(&self, other: &CallTraceNode) -> bool {
        &&& self.parent == other.parent
        &&& self.children@ == other.children@
        &&& self.idx == other.idx
        &&& self.trace.same_contents(&other.trace)
        &&& self.logs@.len() == other.logs@.len()
        &&& forall|i: int|
            0 <= i < self.logs@.len() ==> (#[trigger] self.logs@[i]).same_contents(&other.logs@[i])
        &&& self.ordering@ == other.ordering@
    }

    /// Every step in the ordering is in the detail overlay.
    pub open spec fn ordering_in_overlay(&self) -> bool {
        forall|i: int|
            0 <= i < self.ordering@.len() ==> match #[trigger] self.ordering@[i] {
                TraceMemberOrder::Step(k) => k < self.trace.steps@.overlay.len(),
                _ => true,
            }
    }

    /// The node is `before` with the given steps, and without the steps in its ordering.
    pub open spec fn replaces_steps_of(&self, before: &CallTraceNode, tracks: StepTracks) -> bool {
        &&& self.trace.steps@ == tracks
        &&& self.ordering@ == non_step_entries(before.ordering@)
        &&& *self == (CallTraceNode {
            trace: CallTrace { steps: self.trace.steps, ..before.trace },
            ordering: self.ordering,
            ..*before
        })
    }

    /// The node is `before` without its steps.
    pub open spec fn cleared_of_steps(&self, before: &CallTraceNode) -> bool {
        self.replaces_steps_of(before, StepTracks::empty())
    }

    /// The node is `before` without its detail records.
    pub open spec fn cleared_of_details(&self, before: &CallTraceNode) -> bool {
        self.replaces_steps_of(before, before.trace.steps@.without_details())
    }

    /// Discards the recorded EVM steps, base track and detail overlay, and their entries in the
    /// ordering, keeping the calls and logs.
    pub fn clear_steps(&mut self)
        ensures
            final(self).cleared_of_steps(old(self)),
            final(self).trace.steps.wf(),
            final(self).ordering_in_overlay(),
    {
        self.trace.steps = StepStore::default();
        self.retain_non_step_ordering();
    }

    /// Discards the detail overlay and its entries in the ordering, keeping the base track, the
    /// calls and the logs.
    pub fn clear_step_details(&mut self)
        requires
            old(self).trace.steps.wf(),
        ensures
            final(self).cleared_of_details(old(self)),
            final(self).trace.steps.wf(),
            final(self).ordering_in_overlay(),
    {
        self.trace.steps.clear_details();
        self.retain_non_step_ordering();
    }

    fn retain_non_step_ordering(&mut self)
        ensures
            final(self).ordering@ == non_step_entries(old(self).ordering@),
            *final(self) == (CallTraceNode { ordering: final(self).ordering, ..*old(self) }),
            forall|i: int|
                0 <= i < final(self).ordering@.len() ==> !(
                #[trigger] final(self).ordering@[i] is Step),
    {
        let mut kept: Vec<TraceMemberOrder> = Vec::new();
        let mut i: usize = 0;
        while i < self.ordering.len()
            invariant
                i <= self.ordering@.len(),
                kept@ == non_step_entries(self.ordering@.take(i as int)),
                forall|j: int| 0 <= j < kept@.len() ==> !(#[trigger] kept@[j] is Step),
            decreases self.ordering@.len() - i,
        {
            let item = self.ordering[i];
            proof {
                reveal(Seq::filter);
                assert(self.ordering@.take(i + 1).drop_last() =~= self.ordering@.take(i as int));
            }
            if !matches!(item, TraceMemberOrder::Step(_)) {
                kept.push(item);
            }
            i = i + 1;
        }
        assert(self.ordering@.take(self.ordering@.len() as int) =~= self.ordering@);
        self.ordering = kept;
    }

    /// The address in whose context the call's code runs.
    pub open spec fn context_address(&self) -> Address {
        if self.trace.kind.delegates() {
            self.trace.caller
        } else {
            self.trace.address
        }
    }

    /// Returns the call context's execution address
    pub fn execution_address(&self) -> (r: Address)
        ensures
            r == self.context_address(),
    {
        if self.trace.kind.is_delegate() {
            self.trace.caller
        } else {
            self.trace.address
        }
    }

    /// Returns how many logs this trace already has.
    pub fn log_count(&self) -> (r: usize)
        ensures
            r == self.logs@.len(),
    {
        self.logs.len()
    }

    /// Returns true if this is a call to a precompile
    pub fn is_precompile(&self) -> (r: bool)
        ensures
            r == (self.trace.maybe_precompile == Some(true)),
    {
        self.trace.maybe_precompile.unwrap_or(false)
    }

    /// Returns the kind of call the trace belongs to
    pub fn kind(&self) -> (r: CallKind)
        ensures
            r == self.trace.kind,
    {
        self.trace.kind
    }

    /// Returns the status of the call
    pub fn status(&self) -> (r: Option<InstructionResult>)
        ensures
            r == self.trace.status,
    {
        self.trace.status
    }

    /// Returns the call context's 4 byte selector
    pub fn selector(&self) -> (r: Option<FixedBytes<4>>)
        ensures
            match r {
                Some(selector) => {
                    &&& bytes_seq(self.trace.data).len() >= 4
                    &&& selector_bytes(selector) == bytes_seq(self.trace.data).take(4)
                },
                None => bytes_seq(self.trace.data).len() < 4,
            },
    {
        let data = bytes_as_slice(&self.trace.data);
        if data.len() >= 4 {
            Some(selector_from_slice(vstd::slice::slice_subrange(data, 0, 4)))
        } else {
            None
        }
    }

    /// Returns `true` if this trace was a selfdestruct.
    ///
    /// See [`CallTrace::is_selfdestruct`] for more details.
    pub fn is_selfdestruct(&self) -> (r: bool)
        ensures
            r == self.trace.selfdestructed(),
    {
        self.trace.is_selfdestruct()
    }

    /// `action` is the parity action of the call.
    pub open spec fn is_parity_action(&self, action: Action) -> bool {
        match action {
            Action::Call(call) => {
                &&& !self.trace.kind.creates()
                &&& call.from == self.trace.caller
                &&& call.to == self.trace.address
                &&& call.value == self.trace.value
                &&& call.gas == self.trace.gas_limit
                &&& same_bytes(call.input, self.trace.data)
                &&& call.call_type == self.trace.kind.call_type()
            },
            Action::Create(create) => {
                &&& self.trace.kind.creates()
                &&& create.from == self.trace.caller
                &&& create.value == self.trace.value
                &&& create.gas == self.trace.gas_limit
                &&& same_bytes(create.init, self.trace.data)
                &&& create.creation_method == self.trace.kind.creation_method()
            },
            Action::Selfdestruct(_) => false,
        }
    }

    /// `output` is the parity output of the call.
    pub open spec fn is_parity_output(&self, output: TraceOutput) -> bool {
        match output {
            TraceOutput::Call(call) => {
                &&& !self.trace.kind.creates()
                &&& call.gas_used == self.trace.gas_used
                &&& same_bytes(call.output, self.trace.output)
            },
            TraceOutput::Create(create) => {
                &&& self.trace.kind.creates()
                &&& create.gas_used == self.trace.gas_used
                &&& same_bytes(create.code, self.trace.output)
                &&& create.address == self.trace.address
            },
        }
    }

    /// `action` is the parity action of the selfdestruct.
    pub open spec fn is_parity_selfdestruct(&self, action: Action) -> bool {
        match action {
            Action::Selfdestruct(destroyed) => {
                &&& is_address_or_zero(destroyed.address, self.trace.selfdestruct_address)
                &&& is_address_or_zero(
                    destroyed.refund_address,
                    self.trace.selfdestruct_refund_target,
                )
                &&& is_word_or_zero(destroyed.balance, self.trace.selfdestruct_transferred_value)
            },
            _ => false,
        }
    }

    /// `frame` is the geth frame of the selfdestruct.
    pub open spec fn is_geth_selfdestruct(&self, frame: CallFrame) -> bool {
        &&& frame.typ@ == "SELFDESTRUCT"@
        &&& is_address_or_zero(frame.from, self.trace.selfdestruct_address)
        &&& frame.to == self.trace.selfdestruct_refund_target
        &&& frame.value == self.trace.selfdestruct_transferred_value
        &&& is_word(frame.gas, 0)
        &&& is_word(frame.gas_used, 0)
        &&& bytes_seq(frame.input).len() == 0
        &&& frame.output is None
        &&& frame.error is None
        &&& frame.revert_reason is None
        &&& frame.calls@.len() == 0
        &&& frame.logs@.len() == 0
    }

    /// Converts this node into a parity `TransactionTrace`. The error message is what
    /// `fmt_error_msg` says of the status in parity's style.
    pub fn parity_transaction_trace<F: Fn(InstructionResult, TraceStyle) -> Option<String>>(
        &self,
        trace_address: Vec<usize>,
        fmt_error_msg: F,
    ) -> (r: TransactionTrace)
        requires
            self.trace.status matches Some(status) ==> fmt_error_msg.requires(
                (status, TraceStyle::Parity),
            ),
        ensures
            self.is_parity_action(r.action),
            self.trace.is_error_msg(TraceStyle::Parity, fmt_error_msg, r.error),
            match r.result {
                Some(output) => {
                    &&& !self.trace.failed() || self.trace.reverted()
                    &&& self.is_parity_output(output)
                },
                None => self.trace.failed() && !self.trace.reverted(),
            },
            r.subtraces == self.children@.len(),
            r.trace_address == trace_address,
    {
        let action = self.parity_action();
        let result = if self.trace.is_error() && !self.trace.is_revert() {
            // if the trace is an error that is not a revert, the result is None
            None
        } else {
            Some(self.parity_trace_output())
        };
        let error = self.trace.as_error_msg(TraceStyle::Parity, fmt_error_msg);
        TransactionTrace { action, error, result, trace_address, subtraces: self.children.len() }
    }

    /// Returns the `Output` for a parity trace
    pub fn parity_trace_output(&self) -> (r: TraceOutput)
        ensures
            self.is_parity_output(r),
    {
        match self.kind() {
            CallKind::Call
            | CallKind::StaticCall
            | CallKind::CallCode
            | CallKind::DelegateCall
            | CallKind::AuthCall => TraceOutput::Call(
                CallOutput {
                    gas_used: self.trace.gas_used,
                    output: self.trace.output.clone(),
                },
            ),
            CallKind::Create | CallKind::Create2 => TraceOutput::Create(
                CreateOutput {
                    gas_used: self.trace.gas_used,
                    code: self.trace.output.clone(),
                    address: self.trace.address,
                },
            ),
        }
    }

    /// If the trace is a selfdestruct, returns the `Action` for a parity trace.
    pub fn parity_selfdestruct_action(&self) -> (r: Option<Action>)
        ensures
            match r {
                Some(action) => self.trace.selfdestructed() && self.is_parity_selfdestruct(action),
                None => !self.trace.selfdestructed(),
            },
    {
        if self.is_selfdestruct() {
            Some(
                Action::Selfdestruct(
                    SelfdestructAction {
                        address: match self.trace.selfdestruct_address {
                            Some(address) => address,
                            None => address_zero(),
                        },
                        refund_address: match self.trace.selfdestruct_refund_target {
                            Some(address) => address,
                            None => address_zero(),
                        },
                        balance: match self.trace.selfdestruct_transferred_value {
                            Some(value) => value,
                            None => u256_zero(),
                        },
                    },
                ),
            )
        } else {
            None
        }
    }

    /// If the trace is a selfdestruct, returns the `CallFrame` for a geth call trace
    pub fn geth_selfdestruct_call_trace(&self) -> (r: Option<CallFrame>)
        ensures
            match r {
                Some(frame) => self.trace.selfdestructed() && self.is_geth_selfdestruct(frame),
                None => !self.trace.selfdestructed(),
            },
    {
        if self.is_selfdestruct() {
            Some(
                CallFrame {
                    typ: "SELFDESTRUCT".to_owned(),
                    from: match self.trace.selfdestruct_address {
                        Some(address) => address,
                        None => address_zero(),
                    },
                    to: self.trace.selfdestruct_refund_target,
                    value: self.trace.selfdestruct_transferred_value,
                    gas: u256_zero(),
                    gas_used: u256_zero(),
                    input: Bytes::new(),
                    output: None,
                    error: None,
                    revert_reason: None,
                    calls: Vec::new(),
                    logs: Vec::new(),
                },
            )
        } else {
            None
        }
    }

    /// If the trace is a selfdestruct, returns the `TransactionTrace` for a parity trace.
    pub fn parity_selfdestruct_trace(&self, trace_address: Vec<usize>) -> (r: Option<
        TransactionTrace,
    >)
        ensures
            match r {
                Some(trace) => {
                    &&& self.trace.selfdestructed()
                    &&& self.is_parity_selfdestruct(trace.action)
                    &&& trace.error is None
                    &&& trace.result is None
                    &&& trace.trace_address == trace_address
                    &&& trace.subtraces == 0
                },
                None => !self.trace.selfdestructed(),
            },
    {
        match self.parity_selfdestruct_action() {
            Some(action) => Some(
                TransactionTrace { action, error: None, result: None, trace_address, subtraces: 0 },
            ),
            None => None,
        }
    }

    /// Returns the `Action` for a parity trace.
    ///
    /// Caution: The action is that of the call also where the trace is a selfdestruct, since those
    /// are handled in addition to the call action.
    pub fn parity_action(&self) -> (r: Action)
        ensures
            self.is_parity_action(r),
    {
        match self.kind() {
            CallKind::Call
            | CallKind::StaticCall
            | CallKind::CallCode
            | CallKind::DelegateCall
            | CallKind::AuthCall => Action::Call(
                CallAction {
                    from: self.trace.caller,
                    to: self.trace.address,
                    value: self.trace.value,
                    gas: self.trace.gas_limit,
                    input: self.trace.data.clone(),
                    call_type: CallType::from(self.kind()),
                },
            ),
            CallKind::Create | CallKind::Create2 => Action::Create(
                CreateAction {
                    from: self.trace.caller,
                    value: self.trace.value,
                    gas: self.trace.gas_limit,
                    init: self.trace.data.clone(),
                    creation_method: CreationMethod::from(self.kind()),
                },
            ),
        }
    }

    /// The call failed in a way that uses up its gas and gives no output.
    pub open spec fn burned(&self) -> bool {
        &&& !self.trace.success
        &&& match self.trace.status {
            Some(status) => !status.reverted(),
            None => true,
        }
    }

    /// `frame` is the log `log` in a geth frame.
    pub open spec fn is_log_frame(log: CallLog, frame: CallLogFrame) -> bool {
        &&& frame.address == Some(log.address)
        &&& frame.topics is Some
        &&& frame.topics->0@ == log_topics(log.raw_log)
        &&& frame.data is Some
        &&& bytes_seq(frame.data->0) == log_payload(log.raw_log)
        &&& frame.position == Some(log.position)
        &&& frame.index == Some(log.index)
    }

    /// `frame` is the geth frame of the call, without its child calls and with or without its logs.
    pub open spec fn is_geth_frame<
        F: Fn(InstructionResult, TraceStyle) -> Option<String>,
        G: Fn(&[u8]) -> Option<String>,
    >(
        &self,
        include_logs: bool,
        fmt_error_msg: F,
        maybe_revert_reason: G,
        frame: CallFrame,
    ) -> bool {
        &&& frame.typ@ == self.trace.kind.name()
        &&& frame.from == self.trace.caller
        &&& frame.to == if !self.trace.success && self.trace.kind.creates() {
            None
        } else {
            Some(self.trace.address)
        }
        // STATICCALL frames don't have a value
        &&& frame.value == if self.trace.kind is StaticCall {
            None
        } else {
            Some(self.trace.value)
        }
        &&& is_word(frame.gas, self.trace.gas_limit)
        &&& is_word(
            frame.gas_used,
            if self.burned() {
                self.trace.gas_limit
            } else {
                self.trace.gas_used
            },
        )
        &&& same_bytes(frame.input, self.trace.data)
        &&& match frame.output {
            Some(output) => {
                &&& !self.burned()
                &&& bytes_seq(self.trace.output).len() > 0
                &&& same_bytes(output, self.trace.output)
            },
            None => self.burned() || bytes_seq(self.trace.output).len() == 0,
        }
        &&& if self.trace.success {
            frame.error is None && frame.revert_reason is None
        } else {
            &&& self.trace.is_error_msg(TraceStyle::Geth, fmt_error_msg, frame.error)
            &&& exists|output: &[u8]|
                output@ == bytes_seq(self.trace.output)
                    && #[trigger] maybe_revert_reason.ensures((output,), frame.revert_reason)
        }
        &&& frame.calls@.len() == 0
        &&& frame.logs@.len() == if include_logs {
            self.logs@.len()
        } else {
            0
        }
        &&& forall|i: int|
            0 <= i < frame.logs@.len() ==> Self::is_log_frame(
                self.logs@[i],
                #[trigger] frame.logs@[i],
            )
    }

    /// Converts this call trace into an _empty_ geth [CallFrame]
    ///
    /// For a call that failed, the error is what `fmt_error_msg` says of the status in geth's
    /// style (geth's call tracer reports geth errors, only its flat call tracer reports parity
    /// errors: <https://github.com/ethereum/go-ethereum/blob/a9523b6428238a762e1a1e55e46ead47630c3a23/eth/tracers/native/call_flat.go#L226>),
    /// and the revert reason is what `maybe_revert_reason` reads out of the output.
    pub fn geth_empty_call_frame<
        F: Fn(InstructionResult, TraceStyle) -> Option<String>,
        G: Fn(&[u8]) -> Option<String>,
    >(&self, include_logs: bool, fmt_error_msg: F, maybe_revert_reason: G) -> (r: CallFrame)
        requires
            !self.trace.success ==> (self.trace.status matches Some(status)
                ==> fmt_error_msg.requires((status, TraceStyle::Geth))),
            !self.trace.success ==> forall|output: &[u8]|
                output@ == bytes_seq(self.trace.output)
                    ==> #[trigger] maybe_revert_reason.requires((output,)),
        ensures
            self.is_geth_frame(include_logs, fmt_error_msg, maybe_revert_reason, r),
    {
        let output = bytes_as_slice(&self.trace.output);
        let mut call_frame = CallFrame {
            typ: self.trace.kind.to_str().to_owned(),
            from: self.trace.caller,
            to: Some(self.trace.address),
            value: Some(self.trace.value),
            gas: u256_from_u64(self.trace.gas_limit),
            gas_used: u256_from_u64(self.trace.gas_used),
            input: self.trace.data.clone(),
            output: if output.is_empty() {
                None
            } else {
                Some(self.trace.output.clone())
            },
            error: None,
            revert_reason: None,
            calls: Vec::new(),
            logs: Vec::new(),
        };

        if self.trace.kind.is_static_call() {
            call_frame.value = None;
        }
        // we need to populate error and revert reason
        if !self.trace.success {
            if self.kind().is_any_create() {
                call_frame.to = None;
            }
            let reverted = match self.status() {
                Some(status) => status.is_revert(),
                None => false,
            };
            if !reverted {
                call_frame.gas_used = u256_from_u64(self.trace.gas_limit);
                call_frame.output = None;
            }
            call_frame.revert_reason = maybe_revert_reason(output);
            call_frame.error = self.trace.as_error_msg(TraceStyle::Geth, fmt_error_msg);
        }
        if include_logs {
            call_frame.logs = self.log_frames();
        }
        call_frame
    }

    /// The logs of the node, as a geth frame reports them.
    fn log_frames(&self) -> (r: Vec<CallLogFrame>)
        ensures
            r@.len() == self.logs@.len(),
            forall|i: int|
                0 <= i < r@.len() ==> Self::is_log_frame(self.logs@[i], #[trigger] r@[i]),
    {
        let mut frames: Vec<CallLogFrame> = Vec::new();
        while frames.len() < self.logs.len()
            invariant
                frames@.len() <= self.logs@.len(),
                forall|i: int|
                    0 <= i < frames@.len() ==> Self::is_log_frame(
                        self.logs@[i],
                        #[trigger] frames@[i],
                    ),
            decreases self.logs@.len() - frames@.len(),
        {
            let log = &self.logs[frames.len()];
            frames.push(
                CallLogFrame {
                    address: Some(log.address),
                    topics: Some(topics_to_vec(&log.raw_log)),
                    data: Some(payload_of(&log.raw_log)),
                    position: Some(log.position),
                    index: Some(log.index),
                },
            );
        }
        frames
    }
}

impl Default for CallTraceNode {
    fn default() -> (r: Self)
        ensures
            r.parent is None,
            r.children@.len() == 0,
            r.idx == 0,
            r.trace.is_blank(),
            r.trace.steps.wf(),
            r.logs@.len() == 0,
            r.ordering@.len() == 0,
    {
        CallTraceNode {
            parent: None,
            children: Vec::new(),
            idx: 0,
            trace: CallTrace::default(),
            logs: Vec::new(),
            ordering: Vec::new(),
        }
    }
}

impl Clone for CallTraceNode {
    fn clone(&self) -> (r: Self)
        ensures
            r.same_contents(self),
            self.trace.steps.wf() ==> r.trace.steps.wf(),
    {
        CallTraceNode {
            parent: self.parent,
            children: self.children.clone(),
            idx: self.idx,
            trace: self.trace.clone(),
            logs: self.logs.clone(),
            ordering: self.ordering.clone(),
        }
    }
}

} // verus!
