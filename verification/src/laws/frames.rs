//! How steps are reported across the frames of a transaction, and what clearing a node leaves.

use std::collections::VecDeque;

use vstd::prelude::*;

use crate::node::{
    call_like_count, non_step_entries, CallTraceNode, CallTraceStepStackItem, TraceMemberOrder,
};
use crate::store::{BaseStep, DetailedStepRef, StepRef, StepStore};

verus! {

/// The tracks of a store are the program counters and the opcodes of the steps that are got, and
/// the indices and the records of the detailed steps.
pub proof fn tracks_are_what_is_got<'a>(
    store: StepStore,
    len: usize,
    detailed_len: usize,
    i: usize,
    step: StepRef<'a>,
    k: usize,
    detailed: DetailedStepRef<'a>,
)
    requires
        store.wf(),
        call_ensures(StepStore::len, (&store,), len),
        call_ensures(StepStore::detailed_len, (&store,), detailed_len),
        call_ensures(StepStore::get, (&store, i), Some(step)),
        call_ensures(StepStore::detailed, (&store, k), Some(detailed)),
    ensures
        store@.base.len() == len,
        store@.base[i as int].pc == step.pc,
        store@.base[i as int].op == step.op.0,
        store@.overlay.len() == detailed_len,
        store@.overlay[k as int].step_index == detailed.step_index,
        store@.overlay[k as int].detail == *detailed.detail,
{
}

/// The byte of `CREATE`, `CALL`, `CALLCODE`, `DELEGATECALL`, `CREATE2` or `STATICCALL`.
pub open spec fn opens_a_frame(op: u8) -> bool {
    op == 0xF0 || op == 0xF1 || op == 0xF2 || op == 0xF4 || op == 0xF5 || op == 0xFA
}

/// How many of the first `i` steps of a call have an opcode that opens a frame.
pub open spec fn opened_before(node: CallTraceNode, i: int) -> nat {
    node.trace.steps@.base.take(i).filter(|step: BaseStep| opens_a_frame(step.op)).len()
}

/// The child of the step `i`: where its opcode opens a frame, the child with as many children
/// before it as there are steps before it whose opcode opens one.
pub open spec fn child_opened_by(node: CallTraceNode, i: int) -> Option<usize> {
    if opens_a_frame(node.trace.steps@.base[i].op) && opened_before(node, i)
        < node.children@.len() {
        Some(node.children@[opened_before(node, i) as int])
    } else {
        None
    }
}

/// The step `i` was recorded in full, or has a child.
pub open spec fn has_something_to_report(node: CallTraceNode, i: int) -> bool {
    ||| exists|k: int|
        0 <= k < node.trace.steps@.overlay.len() && (
        #[trigger] node.trace.steps@.overlay[k]).step_index == i
    ||| child_opened_by(node, i) is Some
}

/// How many of the first `i` steps have something to report.
pub open spec fn reports_before(node: CallTraceNode, i: int) -> nat {
    Seq::new(i as nat, |j: int| j).filter(|j: int| has_something_to_report(node, j)).len()
}

proof fn lemma_opened_before(node: CallTraceNode, i: int)
    requires
        0 <= i <= node.trace.steps@.base.len(),
    ensures
        opened_before(node, i) == call_like_count(node.trace.steps@, i),
    decreases i,
{
    reveal(Seq::filter);
    let base = node.trace.steps@.base;
    if i > 0 {
        lemma_opened_before(node, i - 1);
        assert(base.take(i).drop_last() =~= base.take(i - 1));
        assert(base.take(i).last() == base[i - 1]);
    }
}

proof fn lemma_reported(node: CallTraceNode, i: int)
    requires
        0 <= i < node.trace.steps@.base.len(),
    ensures
        node.child_of(i) == child_opened_by(node, i),
        node.reported(i) == has_something_to_report(node, i),
{
    let tracks = node.trace.steps@;
    lemma_opened_before(node, i);
    if exists|k: int|
        0 <= k < tracks.overlay.len() && (#[trigger] tracks.overlay[k]).step_index == i {
        let k = choose|k: int|
            0 <= k < tracks.overlay.len() && (#[trigger] tracks.overlay[k]).step_index == i;
        assert(tracks.owns(i, k));
    }
    if exists|k: int| tracks.owns(i, k) {
        let k = choose|k: int| tracks.owns(i, k);
        assert(tracks.overlay[k].step_index == i);
    }
}

proof fn lemma_reports_before(node: CallTraceNode, n: int)
    requires
        0 <= n <= node.trace.steps@.base.len(),
    ensures
        node.items(n).len() == reports_before(node, n),
        forall|i: int|
            0 <= i < n && has_something_to_report(node, i) ==> {
                &&& #[trigger] reports_before(node, i) < node.items(n).len()
                &&& node.items(n)[reports_before(node, i) as int] == node.item(i)
            },
    decreases n,
{
    reveal(Seq::filter);
    if n > 0 {
        lemma_reports_before(node, n - 1);
        lemma_reported(node, n - 1);
        let all = Seq::new(n as nat, |j: int| j);
        assert(all.drop_last() =~= Seq::new((n - 1) as nat, |j: int| j));
        assert(all.last() == n - 1);
        assert forall|i: int| 0 <= i < n && has_something_to_report(node, i) implies {
            &&& #[trigger] reports_before(node, i) < node.items(n).len()
            &&& node.items(n)[reports_before(node, i) as int] == node.item(i)
        } by {
            if i < n - 1 {
                assert(reports_before(node, i) < node.items(n - 1).len());
            }
        }
    }
}

/// A step with the opcode of a call or a creation opened the child that has as many children before
/// it as there were such steps before it, whether or not any of them was recorded in full. Where
/// there are not so many children, and for every other opcode, it opened none.
pub proof fn steps_open_the_children_in_turn(node: CallTraceNode, i: int)
    requires
        0 <= i < node.trace.steps@.base.len(),
    ensures
        ({
            let base = node.trace.steps@.base;
            let m = base.take(i).filter(
                |step: BaseStep|
                    step.op == 0xF0 || step.op == 0xF1 || step.op == 0xF2 || step.op == 0xF4
                        || step.op == 0xF5 || step.op == 0xFA,
            ).len();
            let op = base[i].op;
            node.item(i).call_child_id == if (op == 0xF0 || op == 0xF1 || op == 0xF2 || op == 0xF4
                || op == 0xF5 || op == 0xFA) && m < node.children@.len() {
                Some(node.children@[m as int])
            } else {
                None
            }
        }),
{
    lemma_reported(node, i);
    let by_byte = |step: BaseStep|
        step.op == 0xF0 || step.op == 0xF1 || step.op == 0xF2 || step.op == 0xF4 || step.op == 0xF5
            || step.op == 0xFA;
    assert(by_byte =~= (|step: BaseStep| opens_a_frame(step.op)));
}

/// Pushing the steps of a call adds one item for each step that was recorded in full or has a
/// child, and leaves what was on the stack below them. Counted from the top, the item of a step
/// comes after those of the steps before it; it holds the call, the step where it was recorded in
/// full, and the child.
pub proof fn pushed_items_are_the_steps_in_order<'a>(
    node: CallTraceNode,
    stack: &mut VecDeque<CallTraceStepStackItem<'a>>,
    i: usize,
    step: StepRef<'a>,
)
    requires
        node.trace.steps.wf(),
        call_ensures(CallTraceNode::push_steps_on_stack, (&node, stack), ()),
        call_ensures(StepStore::get, (&node.trace.steps, i), Some(step)),
    ensures
        final(stack)@.len() == old(stack)@.len() + reports_before(
            node,
            node.trace.steps@.base.len() as int,
        ),
        forall|j: int| 0 <= j < old(stack)@.len() ==> final(stack)@[j] == old(stack)@[j],
        has_something_to_report(node, i as int) <==> step.detail is Some || child_opened_by(
            node,
            i as int,
        ) is Some,
        has_something_to_report(node, i as int) ==> {
            let item = final(stack)@[final(stack)@.len() - 1 - reports_before(node, i as int)];
            &&& reports_before(node, i as int) < final(stack)@.len() - old(stack)@.len()
            &&& *item.trace_node == node
            &&& item.call_child_id == child_opened_by(node, i as int)
            &&& item.call_child_id == {
                let m = node.trace.steps@.base.take(i as int).filter(
                    |step: BaseStep|
                        step.op == 0xF0 || step.op == 0xF1 || step.op == 0xF2 || step.op == 0xF4
                            || step.op == 0xF5 || step.op == 0xFA,
                ).len();
                let op = step.op.0;
                if (op == 0xF0 || op == 0xF1 || op == 0xF2 || op == 0xF4 || op == 0xF5 || op
                    == 0xFA) && m < node.children@.len() {
                    Some(node.children@[m as int])
                } else {
                    None
                }
            }
            &&& item.step == match step.detail {
                Some(detail) => Some(
                    DetailedStepRef { pc: step.pc, op: step.op, step_index: i, detail },
                ),
                None => None,
            }
        },
{
    let n = node.trace.steps@.base.len() as int;
    lemma_reports_before(node, n);
    lemma_reported(node, i as int);
    steps_open_the_children_in_turn(node, i as int);
    assert forall|j: int| 0 <= j < old(stack)@.len() implies final(stack)@[j] == old(
        stack,
    )@[j] by {
        assert(final(stack)@.take(old(stack)@.len() as int)[j] == old(stack)@[j]);
    }
    if has_something_to_report(node, i as int) {
        let p = reports_before(node, i as int) as int;
        assert(node.items(n)[p] == node.item(i as int));
        let item = final(stack)@[final(stack)@.len() - 1 - p];
        assert(item@ == node.items(n)[p]);
    }
}

/// Of two steps with something to report, the later one has more before it.
pub proof fn later_steps_are_reported_later(node: CallTraceNode, i: int, j: int)
    requires
        0 <= i < j <= node.trace.steps@.base.len(),
        has_something_to_report(node, i),
    ensures
        reports_before(node, i) < reports_before(node, j),
{
    lemma_reports_before(node, j);
}

/// Clearing an ordering of steps works entry by entry: what is left of two orderings one after the
/// other is what is left of the first and what is left of the second after it, of a call or a log
/// it is left, and of a step nothing is.
pub proof fn orderings_are_cleared_entry_by_entry(
    a: Seq<TraceMemberOrder>,
    b: Seq<TraceMemberOrder>,
    idx: usize,
)
    ensures
        non_step_entries(a + b) == non_step_entries(a) + non_step_entries(b),
        non_step_entries(Seq::<TraceMemberOrder>::empty()) == Seq::<TraceMemberOrder>::empty(),
        non_step_entries(seq![TraceMemberOrder::Call(idx)]) == seq![TraceMemberOrder::Call(idx)],
        non_step_entries(seq![TraceMemberOrder::Log(idx)]) == seq![TraceMemberOrder::Log(idx)],
        non_step_entries(seq![TraceMemberOrder::Step(idx)]) == Seq::<TraceMemberOrder>::empty(),
{
    let pred = |item: TraceMemberOrder| !(item is Step);
    Seq::filter_distributes_over_add(a, b, pred);
    reveal(Seq::filter);
    let nothing = Seq::<TraceMemberOrder>::empty();
    assert(nothing.filter(pred) =~= nothing);
    let call = seq![TraceMemberOrder::Call(idx)];
    assert(call.drop_last() =~= nothing);
    assert(call.filter(pred) =~= call);
    let log = seq![TraceMemberOrder::Log(idx)];
    assert(log.drop_last() =~= nothing);
    assert(log.filter(pred) =~= log);
    let step = seq![TraceMemberOrder::Step(idx)];
    assert(step.drop_last() =~= nothing);
    assert(step.filter(pred) =~= nothing);
}

/// A node without its steps has none, and of its ordering the entries that are no steps, in the
/// order in which they were. Everything else of it is as it was.
pub proof fn cleared_nodes_keep_all_but_their_steps(node: &mut CallTraceNode, len: usize)
    requires
        call_ensures(CallTraceNode::clear_steps, (node,), ()),
        call_ensures(StepStore::len, (&final(node).trace.steps,), len),
    ensures
        len == 0,
        final(node).trace.steps.wf(),
        final(node).ordering@ == old(node).ordering@.filter(
            |item: TraceMemberOrder| !(item is Step),
        ),
        *final(node) == (CallTraceNode {
            parent: old(node).parent,
            children: old(node).children,
            idx: old(node).idx,
            trace: crate::trace::CallTrace { steps: final(node).trace.steps, ..old(node).trace },
            logs: old(node).logs,
            ordering: final(node).ordering,
        }),
{
}

/// A node without its detail records has the steps that it had, none of which shows a record, and
/// of its ordering the entries that are no steps, in the order in which they were. Everything else
/// of it is as it was.
pub proof fn nodes_cleared_of_details_keep_their_steps<'a>(
    node: &mut CallTraceNode,
    detailed_len: usize,
    i: usize,
    before: Option<StepRef<'a>>,
    after: Option<StepRef<'a>>,
)
    requires
        old(node).trace.steps.wf(),
        call_ensures(CallTraceNode::clear_step_details, (node,), ()),
        call_ensures(StepStore::detailed_len, (&final(node).trace.steps,), detailed_len),
        call_ensures(StepStore::get, (&old(node).trace.steps, i), before),
        call_ensures(StepStore::get, (&final(node).trace.steps, i), after),
    ensures
        detailed_len == 0,
        final(node).trace.steps.wf(),
        after == match before {
            Some(step) => Some(StepRef { detail: None, ..step }),
            None => None,
        },
        final(node).ordering@ == old(node).ordering@.filter(
            |item: TraceMemberOrder| !(item is Step),
        ),
        *final(node) == (CallTraceNode {
            parent: old(node).parent,
            children: old(node).children,
            idx: old(node).idx,
            trace: crate::trace::CallTrace { steps: final(node).trace.steps, ..old(node).trace },
            logs: old(node).logs,
            ordering: final(node).ordering,
        }),
{
    crate::laws::discarding_details_keeps_the_steps(old(node).trace.steps@);
    if i < old(node).trace.steps@.base.len() {
        assert(final(node).trace.steps@.steps()[i as int].detail is None);
    }
}

} // verus!
