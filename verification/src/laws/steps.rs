//! What the functions of a step store return, of one another.

use vstd::prelude::*;

use crate::detail::StepDetail;
use crate::laws::{
    discarding_details_keeps_the_steps, pushed_detail_reads_back, pushed_step_reads_back,
    replaced_detail_reads_back,
};
use crate::opcode::OpCode;
use crate::store::{DetailedStepRef, StepRef, StepStore, StepStoreError};

verus! {

/// A new store has no steps and no detail records.
pub proof fn new_stores_are_empty(store: StepStore, len: usize, detailed_len: usize, empty: bool)
    requires
        call_ensures(<StepStore as Default>::default, (), store),
        call_ensures(StepStore::len, (&store,), len),
        call_ensures(StepStore::detailed_len, (&store,), detailed_len),
        call_ensures(StepStore::is_empty, (&store,), empty),
    ensures
        len == 0,
        detailed_len == 0,
        empty,
{
}

/// A store has a step at each index below its length, and a detailed step at each below its number
/// of detail records. Each shows the index at which it was asked for.
pub proof fn steps_are_found_by_index<'a>(
    store: StepStore,
    len: usize,
    detailed_len: usize,
    empty: bool,
    i: usize,
    step: Option<StepRef<'a>>,
    detailed: Option<DetailedStepRef<'a>>,
    detail: Option<&'a StepDetail>,
)
    requires
        store.wf(),
        call_ensures(StepStore::len, (&store,), len),
        call_ensures(StepStore::detailed_len, (&store,), detailed_len),
        call_ensures(StepStore::is_empty, (&store,), empty),
        call_ensures(StepStore::get, (&store, i), step),
        call_ensures(StepStore::detailed, (&store, i), detailed),
        call_ensures(StepStore::detail, (&store, i), detail),
    ensures
        empty <==> len == 0,
        detailed_len <= len,
        step is Some <==> i < len,
        detailed is Some <==> i < detailed_len,
        detail is Some <==> i < detailed_len,
        step matches Some(step) ==> step.step_index == i,
        detailed matches Some(step) ==> step.step_index < len && detail == Some(step.detail),
{
    crate::laws::detailed_len_at_most_len(store@);
}

/// A step pushed is the step got at the index that the push returned, without a detail record.
/// What is got at every other index is as it was.
pub proof fn pushed_steps_are_got_back<'a>(
    store: &mut StepStore,
    pc: usize,
    op: OpCode,
    idx: usize,
    len: usize,
    i: usize,
    before: Option<StepRef<'a>>,
    after: Option<StepRef<'a>>,
)
    requires
        old(store).wf(),
        call_ensures(StepStore::push, (store, pc, op), idx),
        call_ensures(StepStore::len, (&*old(store),), len),
        call_ensures(StepStore::get, (&*old(store), i), before),
        call_ensures(StepStore::get, (&*final(store), i), after),
    ensures
        idx == len,
        after == if i == idx {
            Some(StepRef { pc, op, step_index: idx, detail: None })
        } else {
            before
        },
{
    pushed_step_reads_back(old(store)@, pc as nat, op.0);
    let tracks = old(store)@;
    if i < tracks.base.len() {
        assert(final(store)@.steps()[i as int] == tracks.steps()[i as int]);
    } else if i == tracks.base.len() {
        assert(final(store)@.steps()[i as int].detail is None);
    }
}

/// A pushed step leaves the steps recorded in full as they were.
pub proof fn pushed_steps_are_not_detailed<'a>(
    store: &mut StepStore,
    pc: usize,
    op: OpCode,
    idx: usize,
    k: usize,
    before: Option<DetailedStepRef<'a>>,
    after: Option<DetailedStepRef<'a>>,
)
    requires
        old(store).wf(),
        call_ensures(StepStore::push, (store, pc, op), idx),
        call_ensures(StepStore::detailed, (&*old(store), k), before),
        call_ensures(StepStore::detailed, (&*final(store), k), after),
    ensures
        after == before,
{
    pushed_step_reads_back(old(store)@, pc as nat, op.0);
    if k < old(store)@.overlay.len() {
        assert(final(store)@.detailed_steps()[k as int] == old(store)@.detailed_steps()[k as int]);
    }
}

/// A detail record pushed for a step is the record that the step shows. The step keeps its program
/// counter and its opcode, and what is got at every other index is as it was.
pub proof fn pushed_details_are_got_back<'a>(
    store: &mut StepStore,
    step_index: usize,
    detail: StepDetail,
    k: usize,
    i: usize,
    before: Option<StepRef<'a>>,
    after: Option<StepRef<'a>>,
)
    requires
        old(store).wf(),
        step_index + 1 == old(store)@.base.len(),
        forall|k: int|
            0 <= k < old(store)@.overlay.len() ==> (#[trigger] old(store)@.overlay[k]).step_index
                != step_index,
        call_ensures(StepStore::push_detail, (store, step_index, detail), k),
        call_ensures(StepStore::get, (&*old(store), i), before),
        call_ensures(StepStore::get, (&*final(store), i), after),
    ensures
        after == match before {
            Some(step) if i == step_index => Some(StepRef { detail: Some(&detail), ..step }),
            _ => before,
        },
{
    pushed_detail_reads_back(old(store)@, detail);
    let tracks = old(store)@;
    if i < tracks.base.len() {
        assert(final(store)@.steps()[i as int] == if i == step_index {
            crate::store::StepView { detail: Some(detail), ..tracks.steps()[i as int] }
        } else {
            tracks.steps()[i as int]
        });
    }
}

/// A detail record pushed for a step is the detailed step at the index that the push returned, the
/// number of records before. The detailed steps before it are as they were.
pub proof fn pushed_details_are_detailed_steps<'a>(
    store: &mut StepStore,
    step_index: usize,
    detail: StepDetail,
    k: usize,
    detailed_len: usize,
    step: Option<StepRef<'a>>,
    j: usize,
    before: Option<DetailedStepRef<'a>>,
    after: Option<DetailedStepRef<'a>>,
)
    requires
        old(store).wf(),
        step_index + 1 == old(store)@.base.len(),
        forall|k: int|
            0 <= k < old(store)@.overlay.len() ==> (#[trigger] old(store)@.overlay[k]).step_index
                != step_index,
        call_ensures(StepStore::push_detail, (store, step_index, detail), k),
        call_ensures(StepStore::detailed_len, (&*old(store),), detailed_len),
        call_ensures(StepStore::get, (&*old(store), step_index), step),
        call_ensures(StepStore::detailed, (&*old(store), j), before),
        call_ensures(StepStore::detailed, (&*final(store), j), after),
    ensures
        k == detailed_len,
        step is Some,
        after == if j == k {
            Some(
                DetailedStepRef {
                    pc: step->0.pc,
                    op: step->0.op,
                    step_index,
                    detail: &detail,
                },
            )
        } else {
            before
        },
{
    pushed_detail_reads_back(old(store)@, detail);
    let tracks = old(store)@;
    if j < tracks.overlay.len() {
        assert(final(store)@.detailed_steps()[j as int] == tracks.detailed_steps()[j as int]);
    } else if j == tracks.overlay.len() {
        assert(final(store)@.detailed_steps()[j as int].detail == detail);
    }
}

/// A detailed step is the step got at its index, which shows its record. The last detailed step is
/// the one with the greatest position, and the opcode at an index is that of the step got there.
pub proof fn detailed_steps_are_got_by_their_index<'a>(
    store: StepStore,
    k: usize,
    detailed_len: usize,
    detailed: DetailedStepRef<'a>,
    step: Option<StepRef<'a>>,
    last: Option<DetailedStepRef<'a>>,
    op: u8,
)
    requires
        store.wf(),
        call_ensures(StepStore::detailed, (&store, k), Some(detailed)),
        call_ensures(StepStore::get, (&store, detailed.step_index), step),
        call_ensures(StepStore::detailed_len, (&store,), detailed_len),
        call_ensures(StepStore::last_detailed, (&store,), last),
        call_ensures(StepStore::op_at, (&store, detailed.step_index), op),
    ensures
        step == Some(
            StepRef {
                pc: detailed.pc,
                op: detailed.op,
                step_index: detailed.step_index,
                detail: Some(detailed.detail),
            },
        ),
        k + 1 == detailed_len ==> last == Some(detailed),
        op == detailed.op.0,
{
    crate::laws::detailed_step_is_a_step(store@, k as int);
}

/// The last detailed step is missing just where there is no detail record, and the opcode at an
/// index is that of the step got there.
pub proof fn last_detailed_step_and_opcode<'a>(
    store: StepStore,
    detailed_len: usize,
    last: Option<DetailedStepRef<'a>>,
    i: usize,
    step: StepRef<'a>,
    op: u8,
)
    requires
        store.wf(),
        call_ensures(StepStore::detailed_len, (&store,), detailed_len),
        call_ensures(StepStore::last_detailed, (&store,), last),
        call_ensures(StepStore::get, (&store, i), Some(step)),
        call_ensures(StepStore::op_at, (&store, i), op),
    ensures
        last is None <==> detailed_len == 0,
        op == step.op.0,
{
}

/// A step shows a detail record only where a detailed step has its index, and it is the record of
/// that one.
pub proof fn shown_details_are_detailed_steps<'a>(store: StepStore, i: usize, step: StepRef<'a>)
    requires
        store.wf(),
        call_ensures(StepStore::get, (&store, i), Some(step)),
        step.detail is Some,
    ensures
        exists|k: int|
            #![trigger store@.overlay[k]]
            0 <= k < store@.overlay.len() && forall|detailed: DetailedStepRef<'a>|
                call_ensures(StepStore::detailed, (&store, k as usize), Some(detailed))
                    ==> detailed.step_index == i && detailed.detail == step.detail->0
                    && detailed.pc == step.pc && detailed.op == step.op,
{
    let k = choose|k: int| store@.owns(i as int, k);
    assert(store@.owns(i as int, k));
    store@.lemma_detail_of(i as int, k);
    store.lemma_overlay_fits();
    assert(store@.overlay[k].step_index == i);
}

/// The record handed out for changing is the one that was there. What is written to it is the
/// record afterwards; the other records are as they were.
pub proof fn changed_details_are_kept<'a>(
    store: &mut StepStore,
    k: usize,
    changed: &mut StepDetail,
    j: usize,
    before: Option<DetailedStepRef<'a>>,
    after: Option<DetailedStepRef<'a>>,
)
    requires
        old(store).wf(),
        call_ensures(StepStore::detail_mut, (store, k), Some(changed)),
        call_ensures(StepStore::detailed, (&*old(store), j), before),
        call_ensures(StepStore::detailed, (&*final(store), j), after),
    ensures
        j == k ==> before is Some && *before->0.detail == *old(changed),
        after == match before {
            Some(step) if j == k => Some(DetailedStepRef { detail: &*final(changed), ..step }),
            _ => before,
        },
{
    replaced_detail_reads_back(old(store)@, k as int, *final(changed));
    if j < old(store)@.overlay.len() {
        assert(final(store)@.detailed_steps()[j as int] == if j == k {
            crate::store::DetailedStepView {
                detail: *final(changed),
                ..old(store)@.detailed_steps()[j as int]
            }
        } else {
            old(store)@.detailed_steps()[j as int]
        });
    }
}

/// A record is handed out for changing just where there is one, and where there is none the store
/// is as it was.
pub proof fn details_are_handed_out_where_there_are_any(
    store: &mut StepStore,
    k: usize,
    changed: Option<&mut StepDetail>,
    detailed_len: usize,
)
    requires
        old(store).wf(),
        call_ensures(StepStore::detail_mut, (store, k), changed),
        call_ensures(StepStore::detailed_len, (&*old(store),), detailed_len),
    ensures
        changed is Some <==> k < detailed_len,
        changed is None ==> *final(store) == *old(store),
{
}

/// The last record handed out for changing is that of the last detailed step, with its step index.
/// What is written to it is the record afterwards; the other records are as they were.
pub proof fn changed_last_details_are_kept<'a>(
    store: &mut StepStore,
    step_index: usize,
    changed: &mut StepDetail,
    detailed_len: usize,
    j: usize,
    before: Option<DetailedStepRef<'a>>,
    after: Option<DetailedStepRef<'a>>,
)
    requires
        old(store).wf(),
        call_ensures(StepStore::last_detail_mut, (store,), Some((step_index, changed))),
        call_ensures(StepStore::detailed_len, (&*old(store),), detailed_len),
        call_ensures(StepStore::detailed, (&*old(store), j), before),
        call_ensures(StepStore::detailed, (&*final(store), j), after),
    ensures
        detailed_len > 0,
        j + 1 == detailed_len ==> {
            &&& before is Some
            &&& before->0.step_index == step_index
            &&& *before->0.detail == *old(changed)
        },
        after == match before {
            Some(step) if j + 1 == detailed_len => Some(
                DetailedStepRef { detail: &*final(changed), ..step },
            ),
            _ => before,
        },
{
    let k = old(store)@.overlay.len() - 1;
    replaced_detail_reads_back(old(store)@, k, *final(changed));
    if j < old(store)@.overlay.len() {
        assert(final(store)@.detailed_steps()[j as int] == if j == k {
            crate::store::DetailedStepView {
                detail: *final(changed),
                ..old(store)@.detailed_steps()[j as int]
            }
        } else {
            old(store)@.detailed_steps()[j as int]
        });
    }
}

/// Where there is no record, none is handed out for changing and the store is as it was.
pub proof fn no_last_detail_to_change(
    store: &mut StepStore,
    changed: Option<(usize, &mut StepDetail)>,
    detailed_len: usize,
)
    requires
        old(store).wf(),
        call_ensures(StepStore::last_detail_mut, (store,), changed),
        call_ensures(StepStore::detailed_len, (&*old(store),), detailed_len),
    ensures
        changed is None <==> detailed_len == 0,
        changed is None ==> *final(store) == *old(store),
{
}

/// Without its detail records a store has the steps that it had, and none shows a record.
pub proof fn discarded_details_leave_the_steps<'a>(
    store: &mut StepStore,
    i: usize,
    before: Option<StepRef<'a>>,
    after: Option<StepRef<'a>>,
    detailed_len: usize,
)
    requires
        old(store).wf(),
        call_ensures(StepStore::clear_details, (store,), ()),
        call_ensures(StepStore::get, (&*old(store), i), before),
        call_ensures(StepStore::get, (&*final(store), i), after),
        call_ensures(StepStore::detailed_len, (&*final(store),), detailed_len),
    ensures
        after == match before {
            Some(step) => Some(StepRef { detail: None, ..step }),
            None => None,
        },
        detailed_len == 0,
{
    discarding_details_keeps_the_steps(old(store)@);
    if i < old(store)@.base.len() {
        assert(final(store)@.steps()[i as int].detail is None);
    }
}

/// A store that was reset is as empty as a new one.
pub proof fn reset_stores_are_empty(store: &mut StepStore, len: usize, detailed_len: usize)
    requires
        call_ensures(StepStore::reset, (store,), ()),
        call_ensures(StepStore::len, (&*final(store),), len),
        call_ensures(StepStore::detailed_len, (&*final(store),), detailed_len),
    ensures
        len == 0,
        detailed_len == 0,
{
}

/// Four columns are a store just where there are as many opcodes as program counters, as many step
/// indices as records, and the indices strictly increase and stay below the number of steps. Each
/// error tells which of these fails first.
pub proof fn columns_are_judged_in_turn(
    pcs: Vec<u32>,
    ops: Vec<u8>,
    detail_steps: Vec<u32>,
    details: Vec<StepDetail>,
    made: Result<StepStore, StepStoreError>,
)
    requires
        call_ensures(StepStore::from_columns, (pcs, ops, detail_steps, details), made),
    ensures
        ({
            let same_ops = pcs@.len() == ops@.len();
            let same_details = detail_steps@.len() == details@.len();
            let in_range = forall|k: int|
                0 <= k < detail_steps@.len() ==> (#[trigger] detail_steps@[k]) < pcs@.len();
            let increasing = forall|j: int, k: int|
                0 <= j < k < detail_steps@.len() ==> (#[trigger] detail_steps@[j]) < (
                #[trigger] detail_steps@[k]);
            &&& made is Ok <==> same_ops && same_details && in_range && increasing
            &&& made matches Err(error) ==> {
                &&& error == StepStoreError::OpsLength <==> !same_ops
                &&& error == StepStoreError::DetailStepsLength <==> same_ops && !same_details
                &&& error == StepStoreError::DetailStepsOrder <==> same_ops && same_details && !(
                in_range && increasing)
            }
        }),
{
    let tracks = crate::store::tracks_of(pcs@, ops@, detail_steps@, details@);
    if detail_steps@.len() == details@.len() {
        assert forall|k: int| 0 <= k < details@.len() implies (
        #[trigger] tracks.overlay[k]).step_index == detail_steps@[k] by {}
        if tracks.valid() {
            assert forall|k: int| 0 <= k < detail_steps@.len() implies (
            #[trigger] detail_steps@[k]) < pcs@.len() by {
                assert(tracks.overlay[k].step_index < tracks.base.len());
            }
            assert forall|j: int, k: int| 0 <= j < k < detail_steps@.len() implies (
            #[trigger] detail_steps@[j]) < (#[trigger] detail_steps@[k]) by {
                assert(tracks.overlay[j].step_index < tracks.overlay[k].step_index);
            }
        }
        if (forall|k: int|
            0 <= k < detail_steps@.len() ==> (#[trigger] detail_steps@[k]) < pcs@.len()) && (
        forall|j: int, k: int|
            0 <= j < k < detail_steps@.len() ==> (#[trigger] detail_steps@[j]) < (
            #[trigger] detail_steps@[k])) {
            assert forall|k: int| 0 <= k < tracks.overlay.len() implies (
            #[trigger] tracks.overlay[k]).step_index < tracks.base.len() by {
                assert(detail_steps@[k] < pcs@.len());
            }
            assert forall|j: int, k: int| 0 <= j < k < tracks.overlay.len() implies (
            #[trigger] tracks.overlay[j]).step_index < (
            #[trigger] tracks.overlay[k]).step_index by {
                assert(detail_steps@[j] < detail_steps@[k]);
            }
            assert(tracks.valid());
        }
    }
}

/// A store made of columns has at each index the program counter and the opcode of the columns, and
/// the record whose step index this is.
pub proof fn steps_are_those_of_the_columns<'a>(
    pcs: Vec<u32>,
    ops: Vec<u8>,
    detail_steps: Vec<u32>,
    details: Vec<StepDetail>,
    store: StepStore,
    i: usize,
    step: Option<StepRef<'a>>,
    k: usize,
    detailed: Option<DetailedStepRef<'a>>,
)
    requires
        call_ensures(StepStore::from_columns, (pcs, ops, detail_steps, details), Ok(store)),
        call_ensures(StepStore::get, (&store, i), step),
        call_ensures(StepStore::detailed, (&store, k), detailed),
    ensures
        step is Some <==> i < pcs@.len(),
        step matches Some(step) ==> {
            &&& step.pc == pcs@[i as int]
            &&& step.op == OpCode(ops@[i as int])
            &&& step.step_index == i
            &&& match step.detail {
                Some(detail) => exists|k: int|
                    0 <= k < details@.len() && #[trigger] detail_steps@[k] == i && details@[k]
                        == *detail,
                None => forall|k: int|
                    0 <= k < details@.len() ==> #[trigger] detail_steps@[k] != i,
            }
        },
        detailed is Some <==> k < details@.len(),
        detailed matches Some(step) ==> {
            &&& step.step_index == detail_steps@[k as int]
            &&& step.pc == pcs@[detail_steps@[k as int] as int]
            &&& step.op == OpCode(ops@[detail_steps@[k as int] as int])
            &&& *step.detail == details@[k as int]
        },
{
    let tracks = store@;
    assert forall|k: int| 0 <= k < details@.len() implies (
    #[trigger] tracks.overlay[k]).step_index == detail_steps@[k] && tracks.overlay[k].detail
        == details@[k] by {}
    if k < details@.len() {
        assert(tracks.overlay[k as int].step_index < tracks.base.len());
    }
    if i < pcs@.len() {
        assert(tracks.base[i as int].pc == pcs@[i as int]);
        if tracks.detail_of(i as int) is Some {
            let k = choose|k: int| tracks.owns(i as int, k);
            assert(tracks.owns(i as int, k));
            tracks.lemma_detail_of(i as int, k);
            assert(detail_steps@[k] == i && details@[k] == *step->0.detail->0);
        } else {
            assert forall|k: int| 0 <= k < details@.len() implies #[trigger] detail_steps@[k]
                != i by {
                assert(!tracks.owns(i as int, k));
                assert(tracks.overlay[k].step_index == detail_steps@[k]);
            }
        }
    }
}

/// A store made of columns comes apart into the same columns.
pub proof fn columns_come_back(
    pcs: Vec<u32>,
    ops: Vec<u8>,
    detail_steps: Vec<u32>,
    details: Vec<StepDetail>,
    store: StepStore,
    columns: (Vec<u32>, Vec<u8>, Vec<u32>, Vec<StepDetail>),
)
    requires
        call_ensures(StepStore::from_columns, (pcs, ops, detail_steps, details), Ok(store)),
        call_ensures(StepStore::into_columns, (store,), columns),
    ensures
        columns.0@ == pcs@,
        columns.1@ == ops@,
        columns.2@ == detail_steps@,
        columns.3@ == details@,
{
    crate::laws::columns_round_trip(
        pcs@,
        ops@,
        detail_steps@,
        details@,
        columns.0@,
        columns.1@,
        columns.2@,
        columns.3@,
    );
}

/// The columns of a store are the program counter and the opcode of each step that is got, and the
/// index and the record of each detailed step.
pub proof fn columns_are_those_of_the_steps<'a>(
    store: StepStore,
    columns: (Vec<u32>, Vec<u8>, Vec<u32>, Vec<StepDetail>),
    i: usize,
    step: Option<StepRef<'a>>,
    k: usize,
    detailed: Option<DetailedStepRef<'a>>,
)
    requires
        store.wf(),
        call_ensures(StepStore::into_columns, (store,), columns),
        call_ensures(StepStore::get, (&store, i), step),
        call_ensures(StepStore::detailed, (&store, k), detailed),
    ensures
        columns.0@.len() == columns.1@.len(),
        columns.2@.len() == columns.3@.len(),
        step is Some <==> i < columns.0@.len(),
        step matches Some(step) ==> step.pc == columns.0@[i as int] && step.op == OpCode(
            columns.1@[i as int],
        ),
        detailed is Some <==> k < columns.2@.len(),
        detailed matches Some(step) ==> step.step_index == columns.2@[k as int] && *step.detail
            == columns.3@[k as int],
{
    if i < columns.0@.len() {
        assert(store@.base[i as int].pc == columns.0@[i as int]);
    }
    if k < columns.2@.len() {
        assert(store@.overlay[k as int].step_index == columns.2@[k as int]);
    }
}

/// A copy of a store has the same steps, with records of the same contents.
pub proof fn copies_have_the_same_steps<'a>(
    store: StepStore,
    copy: StepStore,
    i: usize,
    step: Option<StepRef<'a>>,
    copied: Option<StepRef<'a>>,
)
    requires
        store.wf(),
        call_ensures(<StepStore as Clone>::clone, (&store,), copy),
        call_ensures(StepStore::get, (&store, i), step),
        call_ensures(StepStore::get, (&copy, i), copied),
    ensures
        match (step, copied) {
            (Some(a), Some(b)) => {
                &&& a.pc == b.pc
                &&& a.op == b.op
                &&& a.step_index == b.step_index
                &&& match (a.detail, b.detail) {
                    (Some(c), Some(d)) => c@ == d@,
                    (None, None) => true,
                    _ => false,
                }
            },
            (None, None) => true,
            _ => false,
        },
{
    let a = store@;
    let b = copy@;
    if i < a.base.len() {
        if a.detail_of(i as int) is Some {
            let k = choose|k: int| a.owns(i as int, k);
            assert(a.owns(i as int, k));
            assert(b.overlay[k].step_index == a.overlay[k].step_index);
            assert(b.owns(i as int, k));
            a.lemma_detail_of(i as int, k);
            b.lemma_detail_of(i as int, k);
        } else if b.detail_of(i as int) is Some {
            let k = choose|k: int| b.owns(i as int, k);
            assert(b.owns(i as int, k));
            assert(b.overlay[k].step_index == a.overlay[k].step_index);
            assert(a.owns(i as int, k));
        }
    }
}

} // verus!
