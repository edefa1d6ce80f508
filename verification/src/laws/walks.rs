//! What walks over steps and views of steps show, and how much a store occupies.

use alloy_primitives::U256;
use vstd::layout::size_of;
use vstd::prelude::*;

use crate::decoded::DecodedTraceStep;
use crate::detail::{StepDetail, StorageChange};
use crate::opcode::OpCode;
use crate::primitives::bytes_seq;
use crate::store::{
    CallTraceStep, ColumnCapacities, DetailedStepIter, DetailedStepRef, StepIter, StepRef,
    StepStore,
};
use crate::trace::CallTrace;

verus! {

/// A walk over a store has ahead of it what is got at each index, in order.
pub proof fn walks_have_every_step_ahead<'a>(
    store: StepStore,
    walk: StepIter<'a>,
    len: usize,
    i: usize,
    step: StepRef<'a>,
)
    requires
        store.wf(),
        call_ensures(StepStore::iter, (&store,), walk),
        call_ensures(StepStore::len, (&store,), len),
        call_ensures(StepStore::get, (&store, i), Some(step)),
    ensures
        walk@.len() == len,
        i < walk@.len(),
        walk@[i as int] == step@,
{
}

/// A walk over the detailed steps has ahead of it what is found at each position, in order.
pub proof fn detailed_walks_have_every_detailed_step_ahead<'a>(
    store: StepStore,
    walk: DetailedStepIter<'a>,
    detailed_len: usize,
    k: usize,
    step: DetailedStepRef<'a>,
)
    requires
        store.wf(),
        call_ensures(StepStore::iter_detailed, (&store,), walk),
        call_ensures(StepStore::detailed_len, (&store,), detailed_len),
        call_ensures(StepStore::detailed, (&store, k), Some(step)),
    ensures
        walk@.len() == detailed_len,
        k < walk@.len(),
        walk@[k as int] == step@,
{
}

/// Two views of steps that show the same are the same.
pub proof fn step_views_show_everything<'a>(a: StepRef<'a>, b: StepRef<'a>)
    requires
        a@ == b@,
    ensures
        a == b,
{
}

/// Two views of detailed steps that show the same are the same.
pub proof fn detailed_step_views_show_everything<'a>(
    a: DetailedStepRef<'a>,
    b: DetailedStepRef<'a>,
)
    requires
        a@ == b@,
    ensures
        a == b,
{
}

/// A walk yields what is ahead of it at the front, and has the rest ahead of it afterwards.
pub proof fn walks_yield_from_the_front<'a>(
    walk: &mut StepIter<'a>,
    yielded: Option<StepRef<'a>>,
    expected: StepRef<'a>,
)
    requires
        call_ensures(StepIter::next, (walk,), yielded),
        old(walk)@.len() > 0 ==> old(walk)@[0] == expected@,
    ensures
        yielded == if old(walk)@.len() > 0 {
            Some(expected)
        } else {
            None
        },
        final(walk)@ == if old(walk)@.len() > 0 {
            old(walk)@.subrange(1, old(walk)@.len() as int)
        } else {
            old(walk)@
        },
{
}

/// A walk yields what is ahead of it at the back, and has the rest ahead of it afterwards.
pub proof fn walks_yield_from_the_back<'a>(
    walk: &mut StepIter<'a>,
    yielded: Option<StepRef<'a>>,
    expected: StepRef<'a>,
)
    requires
        call_ensures(StepIter::next_back, (walk,), yielded),
        old(walk)@.len() > 0 ==> old(walk)@[old(walk)@.len() - 1] == expected@,
    ensures
        yielded == if old(walk)@.len() > 0 {
            Some(expected)
        } else {
            None
        },
        final(walk)@ == if old(walk)@.len() > 0 {
            old(walk)@.subrange(0, old(walk)@.len() - 1)
        } else {
            old(walk)@
        },
{
}

/// A walk over the detailed steps yields what is ahead of it at the front, and has the rest ahead
/// of it afterwards.
pub proof fn detailed_walks_yield_from_the_front<'a>(
    walk: &mut DetailedStepIter<'a>,
    yielded: Option<DetailedStepRef<'a>>,
    expected: DetailedStepRef<'a>,
)
    requires
        call_ensures(DetailedStepIter::next, (walk,), yielded),
        old(walk)@.len() > 0 ==> old(walk)@[0] == expected@,
    ensures
        yielded == if old(walk)@.len() > 0 {
            Some(expected)
        } else {
            None
        },
        final(walk)@ == if old(walk)@.len() > 0 {
            old(walk)@.subrange(1, old(walk)@.len() as int)
        } else {
            old(walk)@
        },
{
}

/// A walk over the detailed steps yields what is ahead of it at the back, and has the rest ahead of
/// it afterwards.
pub proof fn detailed_walks_yield_from_the_back<'a>(
    walk: &mut DetailedStepIter<'a>,
    yielded: Option<DetailedStepRef<'a>>,
    expected: DetailedStepRef<'a>,
)
    requires
        call_ensures(DetailedStepIter::next_back, (walk,), yielded),
        old(walk)@.len() > 0 ==> old(walk)@[old(walk)@.len() - 1] == expected@,
    ensures
        yielded == if old(walk)@.len() > 0 {
            Some(expected)
        } else {
            None
        },
        final(walk)@ == if old(walk)@.len() > 0 {
            old(walk)@.subrange(0, old(walk)@.len() - 1)
        } else {
            old(walk)@
        },
{
}

/// The first step that a walk yields from the front is the step at index zero, and the first from
/// the back is the one at the last index.
pub proof fn walks_start_at_the_ends<'a>(
    store: StepStore,
    front: &mut StepIter<'a>,
    back: &mut StepIter<'a>,
    len: usize,
    yielded: Option<StepRef<'a>>,
    yielded_back: Option<StepRef<'a>>,
    first: Option<StepRef<'a>>,
    last: Option<StepRef<'a>>,
)
    requires
        store.wf(),
        call_ensures(StepStore::iter, (&store,), *old(front)),
        call_ensures(StepStore::iter, (&store,), *old(back)),
        call_ensures(StepIter::next, (front,), yielded),
        call_ensures(StepIter::next_back, (back,), yielded_back),
        call_ensures(StepStore::len, (&store,), len),
        call_ensures(StepStore::get, (&store, 0), first),
        len > 0 ==> call_ensures(StepStore::get, (&store, (len - 1) as usize), last),
    ensures
        yielded == first,
        len > 0 ==> yielded_back == last,
        len == 0 ==> yielded_back is None,
{
}

/// A walk says of its size how many steps it has ahead, and a copy of it has the same ahead.
pub proof fn walks_know_their_size<'a>(
    walk: StepIter<'a>,
    size: (usize, Option<usize>),
    copy: StepIter<'a>,
    detailed: DetailedStepIter<'a>,
    detailed_size: (usize, Option<usize>),
    detailed_copy: DetailedStepIter<'a>,
)
    requires
        call_ensures(StepIter::size_hint, (&walk,), size),
        call_ensures(<StepIter as Clone>::clone, (&walk,), copy),
        call_ensures(DetailedStepIter::size_hint, (&detailed,), detailed_size),
        call_ensures(<DetailedStepIter as Clone>::clone, (&detailed,), detailed_copy),
    ensures
        size.0 == walk@.len(),
        size.1 == Some(size.0),
        copy == walk,
        detailed_size.0 == detailed@.len(),
        detailed_size.1 == Some(detailed_size.0),
        detailed_copy == detailed,
{
}

/// A call counts, walks and finds its steps as its store does.
pub proof fn calls_show_the_steps_of_their_store<'a>(
    trace: CallTrace,
    count: usize,
    detailed_count: usize,
    len: usize,
    detailed_len: usize,
    walk: StepIter<'a>,
    store_walk: StepIter<'a>,
    detailed_walk: DetailedStepIter<'a>,
    store_detailed_walk: DetailedStepIter<'a>,
    k: usize,
    detailed: Option<DetailedStepRef<'a>>,
    store_detailed: Option<DetailedStepRef<'a>>,
    last: Option<DetailedStepRef<'a>>,
    store_last: Option<DetailedStepRef<'a>>,
)
    requires
        call_ensures(CallTrace::step_count, (&trace,), count),
        call_ensures(CallTrace::detailed_step_count, (&trace,), detailed_count),
        call_ensures(StepStore::len, (&trace.steps,), len),
        call_ensures(StepStore::detailed_len, (&trace.steps,), detailed_len),
        call_ensures(CallTrace::iter_steps, (&trace,), walk),
        call_ensures(StepStore::iter, (&trace.steps,), store_walk),
        call_ensures(CallTrace::iter_detailed_steps, (&trace,), detailed_walk),
        call_ensures(StepStore::iter_detailed, (&trace.steps,), store_detailed_walk),
        call_ensures(CallTrace::detailed_step, (&trace, k), detailed),
        call_ensures(StepStore::detailed, (&trace.steps, k), store_detailed),
        call_ensures(CallTrace::last_detailed_step, (&trace,), last),
        call_ensures(StepStore::last_detailed, (&trace.steps,), store_last),
    ensures
        count == len,
        detailed_count == detailed_len,
        walk@ == store_walk@,
        detailed_walk@ == store_detailed_walk@,
        detailed == store_detailed,
        last == store_last,
{
}

/// A view of a step hands out the record that it holds, and is a detailed step just where it holds
/// one.
pub proof fn steps_hand_out_their_record<'a>(
    step: StepRef<'a>,
    detail: Option<&'a StepDetail>,
    detailed: Option<DetailedStepRef<'a>>,
    owned: CallTraceStep,
)
    requires
        call_ensures(StepRef::detail, (step,), detail),
        call_ensures(StepRef::detailed, (step,), detailed),
        call_ensures(StepRef::into_owned, (step,), owned),
    ensures
        detail == step.detail,
        detailed == match step.detail {
            Some(detail) => Some(
                DetailedStepRef { pc: step.pc, op: step.op, step_index: step.step_index, detail },
            ),
            None => None,
        },
        owned.pc == step.pc,
        owned.op == step.op,
        owned.detail is Some <==> step.detail is Some,
        owned.detail matches Some(copied) ==> copied@ == step.detail->0@,
{
}

/// A copy of an owned step holds the same.
pub proof fn owned_steps_are_copied(step: CallTraceStep, copy: CallTraceStep)
    requires
        call_ensures(<CallTraceStep as Clone>::clone, (&step,), copy),
    ensures
        copy.pc == step.pc,
        copy.op == step.op,
        copy.detail is Some <==> step.detail is Some,
        copy.detail matches Some(copied) ==> copied@ == step.detail->0@,
{
}

/// A view of a detailed step hands out its record and the parts of it.
pub proof fn detailed_steps_hand_out_their_record<'a>(
    step: DetailedStepRef<'a>,
    detail: &'a StepDetail,
    target: &'a StepDetail,
    change: Option<&'a StorageChange>,
    decoded: Option<&'a DecodedTraceStep>,
    stop: bool,
)
    requires
        call_ensures(DetailedStepRef::detail, (step,), detail),
        call_ensures(<DetailedStepRef as core::ops::Deref>::deref, (&step,), target),
        call_ensures(DetailedStepRef::storage_change, (step,), change),
        call_ensures(DetailedStepRef::decoded, (step,), decoded),
        call_ensures(DetailedStepRef::is_stop, (step,), stop),
    ensures
        detail == step.detail,
        target == step.detail,
        match step.detail.storage_change {
            Some(boxed) => change == Some(&*boxed),
            None => change is None,
        },
        match step.detail.decoded {
            Some(boxed) => decoded == Some(&*boxed),
            None => decoded is None,
        },
        stop <==> step.op.0 == 0x00,
{
}

/// A step is call-like just where its opcode is `CREATE`, `CALL`, `CALLCODE`, `DELEGATECALL`,
/// `CREATE2` or `STATICCALL`.
pub proof fn six_opcodes_are_call_like<'a>(
    op: OpCode,
    call_like: bool,
    step: StepRef<'a>,
    step_call_like: bool,
    detailed: DetailedStepRef<'a>,
    detailed_call_like: bool,
)
    requires
        call_ensures(crate::opcode::is_call_like_op, (op,), call_like),
        call_ensures(StepRef::is_call_like_op, (step,), step_call_like),
        call_ensures(DetailedStepRef::is_call_like_op, (detailed,), detailed_call_like),
    ensures
        call_like <==> op.0 == 0xF0 || op.0 == 0xF1 || op.0 == 0xF2 || op.0 == 0xF4 || op.0 == 0xF5
            || op.0 == 0xFA,
        step.op == op ==> step_call_like == call_like,
        detailed.op == op ==> detailed_call_like == call_like,
{
}

/// Columns take four bytes for a program counter and for a step index, one for an opcode and the
/// size of a record for a record.
pub proof fn columns_take_the_size_of_their_items(capacities: ColumnCapacities, bytes: usize)
    requires
        call_ensures(ColumnCapacities::bytes, (capacities,), bytes),
    ensures
        ({
            let total = 4 * capacities.pcs + capacities.ops + 4 * capacities.detail_steps
                + capacities.details * size_of::<StepDetail>();
            bytes == if total <= usize::MAX {
                total
            } else {
                usize::MAX as int
            }
        }),
{
    broadcast use vstd::layout::layout_of_primitives;

    assert(size_of::<u32>() == 4);
}

/// The words, the bytes and the boxes that a record holds are what it owns.
pub proof fn records_own_what_they_hold(detail: StepDetail, bytes: usize)
    requires
        call_ensures(StepDetail::owned_bytes, (&detail,), bytes),
    ensures
        ({
            let total = size_of::<U256>() * (match detail.stack {
                Some(stack) => stack@.len(),
                None => 0,
            }) + size_of::<U256>() * (match detail.push_stack {
                Some(stack) => stack@.len(),
                None => 0,
            }) + (match detail.memory {
                Some(memory) => bytes_seq(memory.0).len(),
                None => 0,
            }) + bytes_seq(detail.returndata).len() + (match detail.immediate_bytes {
                Some(immediate) => bytes_seq(immediate).len(),
                None => 0,
            }) + (match detail.storage_change {
                Some(_) => size_of::<StorageChange>(),
                None => 0,
            }) + (match detail.decoded {
                Some(_) => size_of::<DecodedTraceStep>(),
                None => 0,
            });
            bytes == if total <= usize::MAX {
                total
            } else {
                usize::MAX as nat
            }
        }),
{
    let word = size_of::<U256>();
    assert forall|n: nat| #[trigger] (n * word) == word * n by {
        assert(n * word == word * n) by (nonlinear_arith);
    }
    if let Some(stack) = detail.stack {
        assert(stack@.len() * word == word * stack@.len());
    }
    if let Some(stack) = detail.push_stack {
        assert(stack@.len() * word == word * stack@.len());
    }
}

/// A store without detail records takes what its columns take.
pub proof fn stores_without_details_take_their_columns(
    store: StepStore,
    capacities: ColumnCapacities,
    columns: usize,
    bytes: usize,
    detailed_len: usize,
)
    requires
        store.wf(),
        call_ensures(StepStore::detailed_len, (&store,), detailed_len),
        detailed_len == 0,
        call_ensures(ColumnCapacities::bytes, (capacities,), columns),
        call_ensures(StepStore::bytes_with, (&store, capacities), bytes),
    ensures
        bytes == columns,
{
}

/// A pushed detail record adds what the record owns to what a store with columns of the same
/// capacity takes.
pub proof fn pushed_records_add_what_they_own(
    store: &mut StepStore,
    step_index: usize,
    detail: StepDetail,
    k: usize,
    capacities: ColumnCapacities,
    before: usize,
    owned: usize,
    after: usize,
)
    requires
        old(store).wf(),
        call_ensures(StepStore::push_detail, (store, step_index, detail), k),
        call_ensures(StepStore::bytes_with, (&*old(store), capacities), before),
        call_ensures(StepDetail::owned_bytes, (&detail,), owned),
        call_ensures(StepStore::bytes_with, (&*final(store), capacities), after),
    ensures
        after == if before + owned <= usize::MAX {
            before + owned
        } else {
            usize::MAX as int
        },
{
    let a = old(store)@;
    let b = final(store)@;
    let n = a.overlay.len() as int;
    lemma_same_records_own_the_same(a, b, n);
    assert(b.overlay[n].detail == detail);
    assert(b.owned_total(n + 1) == b.owned_total(n) + detail.owned_size());
}

/// A pushed step adds nothing to what a store with columns of the same capacity takes.
pub proof fn pushed_steps_own_nothing(
    store: &mut StepStore,
    pc: usize,
    op: OpCode,
    idx: usize,
    capacities: ColumnCapacities,
    before: usize,
    after: usize,
)
    requires
        old(store).wf(),
        call_ensures(StepStore::push, (store, pc, op), idx),
        call_ensures(StepStore::bytes_with, (&*old(store), capacities), before),
        call_ensures(StepStore::bytes_with, (&*final(store), capacities), after),
    ensures
        after == before,
{
    lemma_same_records_own_the_same(
        old(store)@,
        final(store)@,
        old(store)@.overlay.len() as int,
    );
}

proof fn lemma_same_records_own_the_same(
    a: crate::store::StepTracks,
    b: crate::store::StepTracks,
    n: int,
)
    requires
        n <= a.overlay.len(),
        n <= b.overlay.len(),
        forall|k: int| 0 <= k < n ==> a.overlay[k] == b.overlay[k],
    ensures
        a.owned_total(n) == b.owned_total(n),
    decreases n,
{
    if n > 0 {
        lemma_same_records_own_the_same(a, b, n - 1);
        assert(a.overlay[n - 1] == b.overlay[n - 1]);
    }
}

/// A store takes what columns take that have room for its steps and its records, and what its
/// records own.
pub proof fn stores_take_at_least_their_items(
    store: StepStore,
    len: usize,
    detailed_len: usize,
    capacities: ColumnCapacities,
    columns: usize,
    bytes: usize,
)
    requires
        store.wf(),
        call_ensures(StepStore::len, (&store,), len),
        call_ensures(StepStore::detailed_len, (&store,), detailed_len),
        call_ensures(StepStore::capacities, (&store,), capacities),
        call_ensures(StepStore::capacity_bytes, (&store,), columns),
        call_ensures(StepStore::bytes, (&store,), bytes),
    ensures
        capacities.pcs >= len,
        capacities.ops >= len,
        capacities.detail_steps >= detailed_len,
        capacities.details >= detailed_len,
        5 * len <= usize::MAX ==> columns >= 5 * len,
        5 * len <= usize::MAX ==> bytes >= 5 * len,
{
    crate::laws::five_bytes_per_step(len as nat, detailed_len as nat);
}

} // verus!
