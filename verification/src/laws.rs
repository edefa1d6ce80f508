//! What holds of the library as a whole, across its functions.
//!
//! The laws here relate the specifications of the functions. Those in the modules below speak of
//! the values that go into the functions and come out of them.

pub mod frames;
pub mod reports;
pub mod steps;
pub mod values;
pub mod walks;

use vstd::prelude::*;

use crate::decoded::opt_chars;
use crate::detail::{chunk, chunk_count, opt_bytes, StepDetail};
use crate::geth::CallFrame;
use crate::kind::CallKind;
use crate::node::{
    call_like_count, non_step_entries, CallTraceNode, StackItemView, TraceMemberOrder,
};
use crate::opcode::call_like;
use crate::parity::{Action, ActionType, CallType, CreationMethod, TraceOutput};
use crate::primitives::{address_bytes, hex_chars, same_bytes, u256_limbs};
use crate::status::{InstructionResult, TraceStyle};
use crate::store::{
    columns_fault, columns_size, tracks_of, BaseStep, DetailedStepView, OverlayEntry, StepTracks,
    StepView,
};
use crate::trace::CallTrace;

verus! {

/// The step of the `k`-th detail record is at least the `k`-th step.
proof fn lemma_step_index_at_least(tracks: StepTracks, k: int)
    requires
        tracks.valid(),
        0 <= k < tracks.overlay.len(),
    ensures
        tracks.overlay[k].step_index >= k,
    decreases k,
{
    if k > 0 {
        lemma_step_index_at_least(tracks, k - 1);
        assert(tracks.overlay[k - 1].step_index < tracks.overlay[k].step_index);
    }
}

/// A store holds at most as many detail records as steps.
pub proof fn detailed_len_at_most_len(tracks: StepTracks)
    requires
        tracks.valid(),
    ensures
        tracks.detailed_steps().len() <= tracks.steps().len(),
{
    if tracks.overlay.len() > 0 {
        lemma_step_index_at_least(tracks, tracks.overlay.len() - 1);
    }
}

/// The steps recorded in full come in strictly increasing order of their step index.
pub proof fn detailed_steps_increase(tracks: StepTracks, j: int, k: int)
    requires
        tracks.valid(),
        0 <= j < k < tracks.detailed_steps().len(),
    ensures
        tracks.detailed_steps()[j].step_index < tracks.detailed_steps()[k].step_index,
{
    assert(tracks.overlay[j].step_index < tracks.overlay[k].step_index);
}

/// The `k`-th step recorded in full is the step of the base track at its step index: same program
/// counter, same opcode, and its record is the record found there.
pub proof fn detailed_step_is_a_step(tracks: StepTracks, k: int)
    requires
        tracks.valid(),
        0 <= k < tracks.detailed_steps().len(),
    ensures
        tracks.detailed_steps()[k].step_index < tracks.steps().len(),
        tracks.steps()[tracks.detailed_steps()[k].step_index as int].detailed() == Some(
            tracks.detailed_steps()[k],
        ),
{
    let i = tracks.overlay[k].step_index as int;
    assert(tracks.owns(i, k));
    tracks.lemma_detail_of(i, k);
}

/// A step has a detail record just where it is one of the steps recorded in full.
pub proof fn step_is_detailed_iff_recorded_in_full(tracks: StepTracks, i: int)
    requires
        tracks.valid(),
        0 <= i < tracks.steps().len(),
    ensures
        tracks.steps()[i].detail is Some <==> exists|k: int|
            0 <= k < tracks.detailed_steps().len() && (
            #[trigger] tracks.detailed_steps()[k]).step_index == i,
{
    if tracks.detail_of(i) is Some {
        let k = choose|k: int| tracks.owns(i, k);
        assert(tracks.detailed_steps()[k].step_index == i);
    }
    if exists|k: int|
        0 <= k < tracks.detailed_steps().len() && (
        #[trigger] tracks.detailed_steps()[k]).step_index == i {
        let k = choose|k: int|
            0 <= k < tracks.detailed_steps().len() && (
            #[trigger] tracks.detailed_steps()[k]).step_index == i;
        assert(tracks.owns(i, k));
    }
}

/// A pushed step is the last step, without a detail record; the steps and the records before it
/// are as they were.
pub proof fn pushed_step_reads_back(tracks: StepTracks, pc: nat, op: u8)
    requires
        tracks.valid(),
    ensures
        tracks.push(pc, op).valid(),
        tracks.push(pc, op).steps() == tracks.steps().push(
            StepView { pc, op, step_index: tracks.steps().len(), detail: None },
        ),
        tracks.push(pc, op).detailed_steps() == tracks.detailed_steps(),
{
    let after = tracks.push(pc, op);
    let n = tracks.base.len() as int;
    assert(after.valid());
    assert forall|i: int| after.detail_of(i) == tracks.detail_of(i) by {
        assert forall|k: int| after.owns(i, k) == tracks.owns(i, k) by {}
        if exists|k: int| tracks.owns(i, k) {
            let k = choose|k: int| tracks.owns(i, k);
            assert(after.owns(i, k));
            after.lemma_detail_of(i, k);
        } else {
            assert(!exists|k: int| after.owns(i, k));
        }
    }
    assert(tracks.detail_of(n) is None);
    assert(after.steps() =~= tracks.steps().push(
        StepView { pc, op, step_index: n as nat, detail: None },
    ));
    assert(after.detailed_steps() =~= tracks.detailed_steps());
}

/// A pushed detail record is the last step's; the other steps, and the records before it, are as
/// they were.
pub proof fn pushed_detail_reads_back(tracks: StepTracks, detail: StepDetail)
    requires
        tracks.valid(),
        tracks.base.len() > 0,
        !tracks.last_is_detailed(),
    ensures
        tracks.push_detail(detail).valid(),
        tracks.push_detail(detail).steps() == tracks.steps().update(
            tracks.steps().len() - 1,
            StepView { detail: Some(detail), ..tracks.steps().last() },
        ),
        tracks.push_detail(detail).detailed_steps() == tracks.detailed_steps().push(
            DetailedStepView {
                pc: tracks.steps().last().pc,
                op: tracks.steps().last().op,
                step_index: (tracks.steps().len() - 1) as nat,
                detail,
            },
        ),
{
    let after = tracks.push_detail(detail);
    let n = tracks.base.len() - 1;
    let m = tracks.overlay.len() as int;
    assert forall|j: int| 0 <= j < m implies (#[trigger] tracks.overlay[j]).step_index < n by {
        if j < m - 1 {
            assert(tracks.overlay[j].step_index < tracks.overlay[m - 1].step_index);
        }
    }
    assert(after.valid()) by {
        assert forall|j: int, k: int| 0 <= j < k < after.overlay.len() implies (
        #[trigger] after.overlay[j]).step_index < (#[trigger] after.overlay[k]).step_index by {
            assert(after.overlay[j] == tracks.overlay[j]);
            if k < m {
                assert(after.overlay[k] == tracks.overlay[k]);
            }
        }
        assert forall|k: int| 0 <= k < after.overlay.len() implies (
        #[trigger] after.overlay[k]).step_index < after.base.len() by {
            if k < m {
                assert(after.overlay[k] == tracks.overlay[k]);
            }
        }
    }
    assert(after.owns(n, m));
    after.lemma_detail_of(n, m);
    assert forall|i: int| i != n implies after.detail_of(i) == tracks.detail_of(i) by {
        assert forall|k: int| after.owns(i, k) == tracks.owns(i, k) by {
            if 0 <= k < m {
                assert(after.overlay[k] == tracks.overlay[k]);
            }
        }
        if exists|k: int| tracks.owns(i, k) {
            let k = choose|k: int| tracks.owns(i, k);
            assert(after.owns(i, k));
            after.lemma_detail_of(i, k);
        } else {
            assert(!exists|k: int| after.owns(i, k));
        }
    }
    assert(after.steps() =~= tracks.steps().update(
        n,
        StepView { detail: Some(detail), ..tracks.steps().last() },
    ));
    assert(after.detailed_steps() =~= tracks.detailed_steps().push(after.detailed(m)));
}

/// Replacing the `k`-th detail record changes what its step shows and nothing else.
pub proof fn replaced_detail_reads_back(tracks: StepTracks, k: int, detail: StepDetail)
    requires
        tracks.valid(),
        0 <= k < tracks.detailed_steps().len(),
    ensures
        tracks.with_detail(k, detail).valid(),
        tracks.with_detail(k, detail).detailed_steps() == tracks.detailed_steps().update(
            k,
            DetailedStepView { detail, ..tracks.detailed_steps()[k] },
        ),
        tracks.with_detail(k, detail).steps() == tracks.steps().update(
            tracks.detailed_steps()[k].step_index as int,
            StepView {
                detail: Some(detail),
                ..tracks.steps()[tracks.detailed_steps()[k].step_index as int]
            },
        ),
{
    let after = tracks.with_detail(k, detail);
    let n = tracks.overlay[k].step_index as int;
    tracks.lemma_with_detail_valid(k);
    assert(after.valid());
    assert(after.owns(n, k));
    after.lemma_detail_of(n, k);
    assert forall|i: int| i != n implies after.detail_of(i) == tracks.detail_of(i) by {
        assert forall|j: int| after.owns(i, j) == tracks.owns(i, j) by {}
        if exists|j: int| tracks.owns(i, j) {
            let j = choose|j: int| tracks.owns(i, j);
            assert(after.owns(i, j));
            after.lemma_detail_of(i, j);
        } else {
            assert(!exists|j: int| after.owns(i, j));
        }
    }
    assert(after.steps() =~= tracks.steps().update(
        n,
        StepView { detail: Some(detail), ..tracks.steps()[n] },
    ));
    assert(after.detailed_steps() =~= tracks.detailed_steps().update(
        k,
        DetailedStepView { detail, ..tracks.detailed_steps()[k] },
    ));
}

/// Without its detail records a store shows the same steps, none of them recorded in full.
pub proof fn discarding_details_keeps_the_steps(tracks: StepTracks)
    ensures
        tracks.without_details().valid(),
        tracks.without_details().detailed_steps().len() == 0,
        tracks.without_details().steps() == tracks.steps().map_values(
            |step: StepView| StepView { detail: None, ..step },
        ),
{
    let after = tracks.without_details();
    assert forall|i: int| after.detail_of(i) is None by {
        assert forall|k: int| !after.owns(i, k) by {}
    }
    assert(after.steps() =~= tracks.steps().map_values(
        |step: StepView| StepView { detail: None, ..step },
    ));
}

/// Columns that describe a store are the only ones that do: taking a store apart that was made of
/// columns gives the columns back, and making a store of the columns of a store gives one with the
/// same contents.
pub proof fn columns_round_trip(
    pcs: Seq<u32>,
    ops: Seq<u8>,
    detail_steps: Seq<u32>,
    details: Seq<StepDetail>,
    pcs2: Seq<u32>,
    ops2: Seq<u8>,
    detail_steps2: Seq<u32>,
    details2: Seq<StepDetail>,
)
    requires
        columns_fault(pcs, ops, detail_steps, details) is None,
        columns_fault(pcs2, ops2, detail_steps2, details2) is None,
        tracks_of(pcs, ops, detail_steps, details) == tracks_of(
            pcs2,
            ops2,
            detail_steps2,
            details2,
        ),
    ensures
        pcs == pcs2,
        ops == ops2,
        detail_steps == detail_steps2,
        details == details2,
{
    let a = tracks_of(pcs, ops, detail_steps, details);
    let b = tracks_of(pcs2, ops2, detail_steps2, details2);
    assert(a.base.len() == pcs.len() && b.base.len() == pcs2.len());
    assert(a.overlay.len() == details.len() && b.overlay.len() == details2.len());
    assert forall|i: int| 0 <= i < pcs.len() implies pcs[i] == pcs2[i] && ops[i] == ops2[i] by {
        assert(a.base[i] == b.base[i]);
        assert(a.base[i] == (BaseStep { pc: pcs[i] as nat, op: ops[i] }));
        assert(b.base[i] == (BaseStep { pc: pcs2[i] as nat, op: ops2[i] }));
    }
    assert forall|k: int| 0 <= k < details.len() implies detail_steps[k] == detail_steps2[k]
        && details[k] == details2[k] by {
        assert(a.overlay[k] == b.overlay[k]);
        assert(a.overlay[k] == (OverlayEntry {
            step_index: detail_steps[k] as nat,
            detail: details[k],
        }));
        assert(b.overlay[k] == (OverlayEntry {
            step_index: detail_steps2[k] as nat,
            detail: details2[k],
        }));
    }
    assert(pcs =~= pcs2);
    assert(ops =~= ops2);
    assert(detail_steps =~= detail_steps2);
    assert(details =~= details2);
}

/// The base track takes at least five bytes for each step.
pub proof fn five_bytes_per_step(steps: nat, details: nat)
    ensures
        columns_size(steps, steps, details, details) >= 5 * steps,
{
    broadcast use vstd::layout::layout_of_primitives;

    assert(vstd::layout::size_of::<u32>() == 4);
    assert(details * vstd::layout::size_of::<StepDetail>() >= 0) by (nonlinear_arith);
}

/// The child frames among the items, in order.
pub open spec fn child_ids(items: Seq<StackItemView>) -> Seq<usize> {
    items.filter(|item: StackItemView| item.call_child_id is Some).map_values(
        |item: StackItemView| item.call_child_id->0,
    )
}

/// The steps recorded in full among the items, in order.
pub open spec fn recorded_steps(items: Seq<StackItemView>) -> Seq<DetailedStepView> {
    items.filter(|item: StackItemView| item.step is Some).map_values(
        |item: StackItemView| item.step->0,
    )
}

/// What one more item adds.
proof fn lemma_one_more_item(items: Seq<StackItemView>, item: StackItemView)
    ensures
        child_ids(items.push(item)) == (if item.call_child_id is Some {
            child_ids(items).push(item.call_child_id->0)
        } else {
            child_ids(items)
        }),
        recorded_steps(items.push(item)) == (if item.step is Some {
            recorded_steps(items).push(item.step->0)
        } else {
            recorded_steps(items)
        }),
{
    reveal(Seq::filter);
    assert(items.push(item).drop_last() =~= items);
    if item.call_child_id is Some {
        assert(child_ids(items.push(item)) =~= child_ids(items).push(item.call_child_id->0));
    }
    if item.step is Some {
        assert(recorded_steps(items.push(item)) =~= recorded_steps(items).push(item.step->0));
    }
}

/// The smaller of two numbers.
pub open spec fn smaller(a: nat, b: nat) -> nat {
    if a <= b {
        a
    } else {
        b
    }
}

/// Over the first `n` steps of a call, the children are handed out in execution order, one for
/// each call-like step until there are none left, whether or not the step was recorded in full.
pub proof fn children_are_handed_out_in_execution_order(node: CallTraceNode, n: int)
    requires
        0 <= n <= node.trace.steps@.base.len(),
    ensures
        child_ids(node.items(n)) == node.children@.take(
            smaller(call_like_count(node.trace.steps@, n), node.children@.len()) as int,
        ),
    decreases n,
{
    let tracks = node.trace.steps@;
    let children = node.children@;
    if n == 0 {
        reveal(Seq::filter);
        assert(child_ids(node.items(0)) =~= children.take(0));
    } else {
        children_are_handed_out_in_execution_order(node, n - 1);
        let before = call_like_count(tracks, n - 1);
        lemma_one_more_item(node.items(n - 1), node.item(n - 1));
        if node.child_of(n - 1) is Some {
            assert(node.reported(n - 1));
            assert(children.take(before as int).push(children[before as int]) =~= children.take(
                before as int + 1,
            ));
        }
    }
}

/// The first `m` steps recorded in full are those among the first `n` steps.
proof fn lemma_recorded_steps(node: CallTraceNode, n: int, m: int)
    requires
        node.trace.steps@.valid(),
        0 <= n <= node.trace.steps@.base.len(),
        0 <= m <= node.trace.steps@.overlay.len(),
        forall|k: int|
            0 <= k < node.trace.steps@.overlay.len() ==> (k < m <==> (
            #[trigger] node.trace.steps@.overlay[k]).step_index < n),
    ensures
        recorded_steps(node.items(n)) == node.trace.steps@.detailed_steps().take(m),
    decreases n,
{
    let tracks = node.trace.steps@;
    if n == 0 {
        reveal(Seq::filter);
        if m > 0 {
            assert(tracks.overlay[0].step_index < 0);
        }
        assert(recorded_steps(node.items(0)) =~= tracks.detailed_steps().take(0));
    } else {
        let i = n - 1;
        lemma_one_more_item(node.items(i), node.item(i));
        if m > 0 && tracks.overlay[m - 1].step_index == i {
            assert forall|k: int| 0 <= k < tracks.overlay.len() implies (k < m - 1 <==> (
            #[trigger] tracks.overlay[k]).step_index < i) by {
                if k < m - 1 {
                    assert(tracks.overlay[k].step_index < tracks.overlay[m - 1].step_index);
                }
            }
            lemma_recorded_steps(node, i, m - 1);
            assert(tracks.owns(i, m - 1));
            tracks.lemma_detail_of(i, m - 1);
            assert(node.item(i).step == Some(tracks.detailed(m - 1)));
            assert(tracks.detailed_steps().take(m) =~= tracks.detailed_steps().take(m - 1).push(
                tracks.detailed(m - 1),
            ));
        } else {
            assert forall|k: int| 0 <= k < tracks.overlay.len() implies (k < m <==> (
            #[trigger] tracks.overlay[k]).step_index < i) by {
                if k < m && tracks.overlay[k].step_index == i && k < m - 1 {
                    assert(tracks.overlay[k].step_index < tracks.overlay[m - 1].step_index);
                }
            }
            lemma_recorded_steps(node, i, m);
            assert forall|k: int| !tracks.owns(i, k) by {
                if tracks.owns(i, k) {
                    assert(tracks.overlay[k].step_index < n);
                    assert(k < m);
                }
            }
            assert(tracks.detail_of(i) is None);
        }
    }
}

/// What is reported of a call's steps are the steps recorded in full, all of them and in execution
/// order.
pub proof fn every_detailed_step_is_reported(node: CallTraceNode)
    requires
        node.trace.steps@.valid(),
    ensures
        recorded_steps(node.items(node.trace.steps@.base.len() as int))
            == node.trace.steps@.detailed_steps(),
{
    let tracks = node.trace.steps@;
    lemma_recorded_steps(node, tracks.base.len() as int, tracks.overlay.len() as int);
    assert(tracks.detailed_steps().take(tracks.overlay.len() as int) =~= tracks.detailed_steps());
}

/// Two calls that executed the same opcodes count the same call-like steps.
proof fn lemma_same_base_same_count(a: StepTracks, b: StepTracks, n: int)
    requires
        a.base == b.base,
    ensures
        call_like_count(a, n) == call_like_count(b, n),
    decreases n,
{
    if n > 0 {
        lemma_same_base_same_count(a, b, n - 1);
    }
}

/// Which child a step opened depends on the executed opcodes and the children alone, not on which
/// steps were recorded in full.
pub proof fn attribution_ignores_details(a: CallTraceNode, b: CallTraceNode, i: int)
    requires
        a.trace.steps@.base == b.trace.steps@.base,
        a.children@ == b.children@,
        0 <= i < a.trace.steps@.base.len(),
    ensures
        a.child_of(i) == b.child_of(i),
{
    lemma_same_base_same_count(a.trace.steps@, b.trace.steps@, i);
}

/// A step that is not call-like opened no child, and distinct steps opened distinct children of
/// the list, the earlier step the earlier one.
pub proof fn each_child_has_one_step(node: CallTraceNode, i: int, j: int)
    requires
        0 <= i < j < node.trace.steps@.base.len(),
        node.child_of(i) is Some,
        node.child_of(j) is Some,
    ensures
        call_like(node.trace.steps@.base[i].op),
        call_like(node.trace.steps@.base[j].op),
        call_like_count(node.trace.steps@, i) < call_like_count(node.trace.steps@, j),
        node.child_of(i) == Some(node.children@[call_like_count(node.trace.steps@, i) as int]),
        node.child_of(j) == Some(node.children@[call_like_count(node.trace.steps@, j) as int]),
{
    lemma_count_grows(node.trace.steps@, i + 1, j);
}

proof fn lemma_count_grows(tracks: StepTracks, i: int, j: int)
    requires
        0 <= i <= j,
    ensures
        call_like_count(tracks, i) <= call_like_count(tracks, j),
    decreases j - i,
{
    if i < j {
        lemma_count_grows(tracks, i, j - 1);
    }
}

/// Of an ordering without steps, no entry is left out.
proof fn lemma_no_steps_left(ordering: Seq<TraceMemberOrder>)
    requires
        forall|i: int| 0 <= i < ordering.len() ==> !(#[trigger] ordering[i] is Step),
    ensures
        non_step_entries(ordering) == ordering,
    decreases ordering.len(),
{
    reveal(Seq::filter);
    if ordering.len() > 0 {
        lemma_no_steps_left(ordering.drop_last());
        assert(ordering.drop_last().push(ordering.last()) =~= ordering);
    } else {
        assert(non_step_entries(ordering) =~= ordering);
    }
}

/// A cleared ordering holds no steps, and every other entry of the ordering before.
pub proof fn cleared_ordering_keeps_calls_and_logs(ordering: Seq<TraceMemberOrder>)
    ensures
        forall|i: int|
            0 <= i < non_step_entries(ordering).len() ==> !(
            #[trigger] non_step_entries(ordering)[i] is Step),
        forall|item: TraceMemberOrder|
            non_step_entries(ordering).contains(item) <==> ordering.contains(item)
                && !(item is Step),
        non_step_entries(non_step_entries(ordering)) == non_step_entries(ordering),
{
    let pred = |item: TraceMemberOrder| !(item is Step);
    let kept = non_step_entries(ordering);
    assert(kept == ordering.filter(pred));
    assert forall|i: int| 0 <= i < kept.len() implies !(#[trigger] kept[i] is Step) by {
        ordering.lemma_filter_pred(pred, i);
    }
    assert forall|item: TraceMemberOrder| kept.contains(item) <==> ordering.contains(item)
        && !(item is Step) by {
        if ordering.contains(item) && !(item is Step) {
            let i = choose|i: int| 0 <= i < ordering.len() && ordering[i] == item;
            ordering.lemma_filter_contains(pred, i);
        }
        if kept.contains(item) {
            lemma_kept_came_from(ordering, item);
        }
    }
    lemma_no_steps_left(kept);
}

proof fn lemma_kept_came_from(ordering: Seq<TraceMemberOrder>, item: TraceMemberOrder)
    requires
        non_step_entries(ordering).contains(item),
    ensures
        ordering.contains(item),
    decreases ordering.len(),
{
    reveal(Seq::filter);
    if ordering.len() > 0 {
        if non_step_entries(ordering.drop_last()).contains(item) {
            lemma_kept_came_from(ordering.drop_last(), item);
            let i = choose|i: int|
                0 <= i < ordering.drop_last().len() && ordering.drop_last()[i] == item;
            assert(ordering[i] == item);
        } else {
            assert(ordering.last() == item) by {
                let kept = non_step_entries(ordering);
                let j = choose|j: int| 0 <= j < kept.len() && kept[j] == item;
                let kept_before = non_step_entries(ordering.drop_last());
                if j < kept_before.len() {
                    assert(kept_before[j] == item);
                }
            }
            assert(ordering[ordering.len() - 1] == item);
        }
    }
}

/// Discarding the detail records before discarding the steps changes nothing: the outcome is the
/// node without its steps.
pub proof fn clearing_details_then_steps_clears_steps(
    before: CallTraceNode,
    without_details: CallTraceNode,
    without_steps: CallTraceNode,
)
    requires
        without_details.cleared_of_details(&before),
        without_steps.cleared_of_steps(&without_details),
    ensures
        without_steps.cleared_of_steps(&before),
{
    cleared_ordering_keeps_calls_and_logs(before.ordering@);
}

/// Discarding the detail records a second time changes nothing.
pub proof fn clearing_details_twice_is_clearing_once(
    before: CallTraceNode,
    once: CallTraceNode,
    twice: CallTraceNode,
)
    requires
        once.cleared_of_details(&before),
        twice.cleared_of_details(&once),
    ensures
        twice.cleared_of_details(&before),
        twice.trace.steps@ == once.trace.steps@,
        twice.ordering@ == once.ordering@,
{
    cleared_ordering_keeps_calls_and_logs(before.ordering@);
}

/// Without its detail records, a call reports of its steps the child frames alone, and the same
/// ones in the same order.
pub proof fn clearing_details_keeps_child_frames(
    before: CallTraceNode,
    after: CallTraceNode,
    n: int,
)
    requires
        after.cleared_of_details(&before),
        0 <= n <= before.trace.steps@.base.len(),
    ensures
        child_ids(after.items(n)) == child_ids(before.items(n)),
        recorded_steps(after.items(n)).len() == 0,
{
    children_are_handed_out_in_execution_order(before, n);
    children_are_handed_out_in_execution_order(after, n);
    lemma_same_base_same_count(before.trace.steps@, after.trace.steps@, n);
    discarding_details_keeps_the_steps(before.trace.steps@);
    lemma_recorded_steps(after, n, 0);
}

/// A call's final status is a success, a revert or a halt, and only one of them.
pub proof fn one_outcome(status: InstructionResult)
    ensures
        status.success() || status.reverted() || status.halted(),
        !(status.success() && status.reverted()),
        !(status.success() && status.halted()),
        !(status.reverted() && status.halted()),
{
}

/// A call that ended in the `REVERT` opcode failed, and one that ended in the `SELFDESTRUCT` opcode
/// did not.
pub proof fn reverted_calls_failed(trace: CallTrace)
    ensures
        trace.reverted() ==> trace.failed(),
        trace.status == Some(InstructionResult::SelfDestruct) ==> trace.selfdestructed()
            && !trace.failed(),
        trace.failed() ==> trace.status is Some,
{
}

/// A call is reported to parity as the action and the output of the same type, which is that of
/// its kind, and the action's call type or creation method is that of an action of this type.
pub proof fn parity_action_and_output_agree(
    node: CallTraceNode,
    action: Action,
    output: TraceOutput,
)
    requires
        node.is_parity_action(action),
        node.is_parity_output(output),
    ensures
        action.action_type() == node.trace.kind.action_type(),
        action is Call <==> output is Call,
        action is Create <==> output is Create,
        action matches Action::Call(call) ==> call.call_type != CallType::NotACall,
        action matches Action::Create(create) ==> create.creation_method
            != CreationMethod::NotACreation,
{
}

/// The geth frame and the parity action of a selfdestruct name the same contract, the same heir
/// and the same value. Where the heir or the value is unknown, the frame has none and the action
/// has zero.
pub proof fn selfdestruct_reports_agree(node: CallTraceNode, frame: CallFrame, action: Action)
    requires
        node.is_geth_selfdestruct(frame),
        node.is_parity_selfdestruct(action),
    ensures
        action.action_type() == ActionType::Selfdestruct,
        action matches Action::Selfdestruct(destroyed) ==> {
            &&& address_bytes(frame.from) == address_bytes(destroyed.address)
            &&& match frame.to {
                Some(heir) => destroyed.refund_address == heir,
                None => address_bytes(destroyed.refund_address) == Seq::new(20, |i: int| 0u8),
            }
            &&& match frame.value {
                Some(value) => destroyed.balance == value,
                None => u256_limbs(destroyed.balance) == seq![0u64, 0u64, 0u64, 0u64],
            }
        },
{
}

/// The geth frame of a call with its logs and the one without agree in everything but the logs,
/// where the functions that give the error message and the revert reason give the same text for the
/// same input. Neither has child calls, whether or not the call has children.
pub proof fn logs_change_nothing_else_of_a_geth_frame<
    F: Fn(InstructionResult, TraceStyle) -> Option<String>,
    G: Fn(&[u8]) -> Option<String>,
>(
    node: CallTraceNode,
    fmt_error_msg: F,
    maybe_revert_reason: G,
    with_logs: CallFrame,
    without_logs: CallFrame,
)
    requires
        node.is_geth_frame(true, fmt_error_msg, maybe_revert_reason, with_logs),
        node.is_geth_frame(false, fmt_error_msg, maybe_revert_reason, without_logs),
        forall|
            status: InstructionResult,
            style: TraceStyle,
            a: Option<String>,
            b: Option<String>,
        |
            #[trigger] fmt_error_msg.ensures((status, style), a)
                && #[trigger] fmt_error_msg.ensures((status, style), b) ==> opt_chars(a)
                == opt_chars(b),
        forall|o: &[u8], p: &[u8], a: Option<String>, b: Option<String>|
            o@ == p@ && #[trigger] maybe_revert_reason.ensures((o,), a)
                && #[trigger] maybe_revert_reason.ensures((p,), b) ==> opt_chars(a) == opt_chars(b),
    ensures
        with_logs.typ@ == without_logs.typ@,
        with_logs.from == without_logs.from,
        with_logs.to == without_logs.to,
        with_logs.value == without_logs.value,
        u256_limbs(with_logs.gas) == u256_limbs(without_logs.gas),
        u256_limbs(with_logs.gas_used) == u256_limbs(without_logs.gas_used),
        same_bytes(with_logs.input, without_logs.input),
        opt_bytes(with_logs.output) == opt_bytes(without_logs.output),
        opt_chars(with_logs.error) == opt_chars(without_logs.error),
        opt_chars(with_logs.revert_reason) == opt_chars(without_logs.revert_reason),
        with_logs.calls@.len() == 0,
        without_logs.calls@.len() == 0,
        with_logs.logs@.len() == node.logs@.len(),
        without_logs.logs@.len() == 0,
{
}

/// No two kinds of call have the same name.
pub proof fn kind_names_are_distinct(a: CallKind, b: CallKind)
    requires
        a.name() == b.name(),
    ensures
        a == b,
{
    reveal_strlit("CALL");
    reveal_strlit("STATICCALL");
    reveal_strlit("CALLCODE");
    reveal_strlit("DELEGATECALL");
    reveal_strlit("AUTHCALL");
    reveal_strlit("CREATE");
    reveal_strlit("CREATE2");
    assert("CALL"@.len() == 4);
    assert("STATICCALL"@.len() == 10);
    assert("CALLCODE"@.len() == 8);
    assert("DELEGATECALL"@.len() == 12);
    assert("AUTHCALL"@.len() == 8);
    assert("CREATE"@.len() == 6);
    assert("CREATE2"@.len() == 7);
    assert("CALLCODE"@[0] != "AUTHCALL"@[0]);
}

/// A kind of call is a creation just where it has a creation method, where it has no call type and
/// where its action is a creation. A creation does not run in the context of its caller.
pub proof fn kind_conversions_agree(kind: CallKind)
    ensures
        kind.creates() <==> kind.creation_method() != CreationMethod::NotACreation,
        kind.creates() <==> kind.call_type() == CallType::NotACall,
        kind.creates() <==> kind.action_type() == ActionType::Create,
        !kind.creates() <==> kind.action_type() == ActionType::Call,
        !(kind.creates() && kind.delegates()),
{
}

/// The chunks of a memory are its bytes in order, filled up with zeros by less than a chunk, and
/// the text of each has sixty-four digits.
pub proof fn chunks_cover_memory(mem: Seq<u8>)
    ensures
        mem.len() <= 32 * chunk_count(mem.len()) < mem.len() + 32,
        forall|b: int|
            0 <= b < 32 * chunk_count(mem.len()) ==> #[trigger] chunk(mem, b / 32)[b % 32] == (
            if b < mem.len() {
                mem[b]
            } else {
                0
            }),
        forall|i: int| (#[trigger] hex_chars(chunk(mem, i))).len() == 64,
{
}

} // verus!
