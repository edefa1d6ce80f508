//! The store of a call's steps.

use alloy_primitives::{Bytes, U256};
use call_trace::decoded::{DecodedInternalCall, DecodedTraceStep};
use call_trace::detail::{
    convert_memory, RecordedMemory, StepDetail, StorageChange, StorageChangeReason,
};
use call_trace::geth::GethDefaultTracingOptions;
use call_trace::opcode::{OpCode, CALL, STOP};
use call_trace::status::InstructionResult;
use call_trace::store::{ColumnCapacities, StepStore, StepStoreError};

const ADD: u8 = 0x01;

fn detail(gas_cost: u64) -> StepDetail {
    StepDetail { gas_cost, ..Default::default() }
}

/// Five steps, of which the second and the fourth were recorded in full.
fn store() -> StepStore {
    let mut store = StepStore::default();
    assert_eq!(store.push(0, OpCode(ADD)), 0);
    assert_eq!(store.push(1, OpCode(CALL)), 1);
    assert_eq!(store.push_detail(1, detail(11)), 0);
    assert_eq!(store.push(2, OpCode(ADD)), 2);
    assert_eq!(store.push(7, OpCode(0x0c)), 3);
    assert_eq!(store.push_detail(3, detail(33)), 1);
    assert_eq!(store.push(8, OpCode(STOP)), 4);
    store
}

#[test]
fn an_empty_store_has_no_steps() {
    let mut store = StepStore::default();
    assert!(store.is_empty());
    assert_eq!((store.len(), store.detailed_len()), (0, 0));
    assert!(store.get(0).is_none());
    assert!(store.detailed(0).is_none());
    assert!(store.last_detailed().is_none());
    assert!(store.detail(0).is_none());
    assert!(store.detail_mut(0).is_none());
    assert!(store.last_detail_mut().is_none());
    assert!(store.iter().next().is_none());
    assert!(store.iter().next_back().is_none());
    assert!(store.iter_detailed().next().is_none());
    assert!(store.iter_detailed().next_back().is_none());
}

#[test]
fn steps_read_back() {
    let store = store();
    assert_eq!((store.len(), store.detailed_len()), (5, 2));
    assert!(store.detailed_len() <= store.len());
    let expected = [
        (0, ADD, None),
        (1, CALL, Some(11)),
        (2, ADD, None),
        (7, 0x0c, Some(33)),
        (8, STOP, None),
    ];
    for (idx, (pc, op, gas_cost)) in expected.into_iter().enumerate() {
        let step = store.get(idx).unwrap();
        assert_eq!((step.pc, step.op.get(), step.step_index), (pc, op, idx));
        assert_eq!(step.detail().map(|detail| detail.gas_cost), gas_cost);
        assert_eq!(step.detailed().is_some(), gas_cost.is_some());
        assert_eq!(step.is_call_like_op(), op == CALL);
        assert_eq!(store.op_at(idx), op);
        let owned = step.into_owned();
        assert_eq!((owned.pc, owned.op.get()), (pc, op));
        assert_eq!(owned.detail, gas_cost.map(detail));
        assert_eq!(owned.clone(), owned);
    }
    assert!(store.get(5).is_none());
    assert!(store.get(usize::MAX).is_none());
    assert!(store.get(1 + (1 << 32)).is_none());
}

#[test]
fn detailed_steps_are_steps() {
    let store = store();
    for (k, step_index) in [(0, 1), (1, 3)] {
        let step = store.detailed(k).unwrap();
        assert_eq!(step.step_index, step_index);
        let same = store.get(step_index).unwrap().detailed().unwrap();
        assert_eq!((step.pc, step.op), (same.pc, same.op));
        assert_eq!(step.detail(), same.detail());
        assert_eq!(store.detail(k), Some(step.detail()));
    }
    assert!(store.detailed(2).is_none());
    assert!(store.detail(2).is_none());
    let last = store.last_detailed().unwrap();
    assert_eq!((last.step_index, last.gas_cost), (3, 33));
    assert!(!last.is_stop());
    assert!(!last.is_call_like_op());
    assert!(store.detailed(0).unwrap().is_call_like_op());
}

#[test]
fn steps_can_be_walked_from_both_ends() {
    let store = store();
    let mut steps = store.iter();
    assert_eq!(steps.size_hint(), (5, Some(5)));
    let back = steps.next_back().unwrap();
    assert_eq!((back.step_index, back.detail().is_some()), (4, false));
    let front = steps.next().unwrap();
    assert_eq!((front.step_index, front.detail().is_some()), (0, false));
    let back = steps.next_back().unwrap();
    assert_eq!((back.step_index, back.detail().unwrap().gas_cost), (3, 33));
    let mut copy = steps.clone();
    let front = steps.next().unwrap();
    assert_eq!((front.step_index, front.detail().unwrap().gas_cost), (1, 11));
    assert_eq!(steps.size_hint(), (1, Some(1)));
    let middle = steps.next_back().unwrap();
    assert_eq!((middle.step_index, middle.detail().is_some()), (2, false));
    assert!(steps.next().is_none());
    assert!(steps.next_back().is_none());
    assert_eq!(copy.size_hint(), (2, Some(2)));
    assert_eq!(copy.next_back().unwrap().step_index, 2);
    assert_eq!(copy.next_back().unwrap().detail().unwrap().gas_cost, 11);
}

#[test]
fn detailed_steps_can_be_walked_from_both_ends() {
    let store = store();
    let mut steps = store.iter_detailed();
    assert_eq!(steps.size_hint(), (2, Some(2)));
    let mut copy = steps.clone();
    assert_eq!(steps.next().unwrap().step_index, 1);
    assert_eq!(steps.next().unwrap().step_index, 3);
    assert!(steps.next().is_none());
    assert_eq!(copy.next_back().unwrap().step_index, 3);
    assert_eq!(copy.next_back().unwrap().step_index, 1);
    assert!(copy.next_back().is_none());
}

#[test]
fn records_can_be_changed_in_place() {
    let mut store = store();
    store.detail_mut(0).unwrap().gas_cost = 12;
    let (step_index, last) = store.last_detail_mut().unwrap();
    assert_eq!(step_index, 3);
    last.gas_cost = 34;
    assert_eq!(store.get(1).unwrap().detail().unwrap().gas_cost, 12);
    assert_eq!(store.get(3).unwrap().detail().unwrap().gas_cost, 34);
    assert_eq!(store.len(), 5);
}

#[test]
fn details_can_be_discarded() {
    let mut store = store();
    store.clear_details();
    assert_eq!((store.len(), store.detailed_len()), (5, 0));
    assert!(store.get(1).unwrap().detail().is_none());
    let cleared = store.clone();
    store.clear_details();
    assert_eq!(store, cleared);
    assert_eq!(store.push_detail(4, detail(44)), 0);
    assert_eq!(store.last_detailed().unwrap().step_index, 4);
}

#[test]
fn a_reset_store_is_empty() {
    let mut store = store();
    store.reset();
    assert_eq!(store, StepStore::default());
    assert_eq!(store.push(3, OpCode(ADD)), 0);
}

#[test]
fn a_clone_has_the_same_steps() {
    let first = store();
    let mut copy = first.clone();
    assert_eq!(copy, first);
    copy.push(9, OpCode(ADD));
    assert_ne!(copy, first);
}

#[test]
fn columns_round_trip() {
    let columns = (vec![0, 4, 5], vec![ADD, CALL, STOP], vec![0, 2], vec![detail(1), detail(2)]);
    let (pcs, ops, detail_steps, details) = columns.clone();
    let store = StepStore::from_columns(pcs, ops, detail_steps, details).unwrap();
    assert_eq!(store.get(2).unwrap().detail().unwrap().gas_cost, 2);
    assert_eq!(store.into_columns(), columns);
    assert_eq!(
        StepStore::from_columns(vec![], vec![], vec![], vec![]),
        Ok(StepStore::default())
    );
}

#[test]
fn faulty_columns_are_refused() {
    let ops_length = StepStore::from_columns(vec![0, 1], vec![ADD], vec![], vec![]);
    assert_eq!(ops_length, Err(StepStoreError::OpsLength));
    let details_length = StepStore::from_columns(vec![0], vec![ADD], vec![0], vec![]);
    assert_eq!(details_length, Err(StepStoreError::DetailStepsLength));
    let base = || (vec![0, 1], vec![ADD, ADD]);
    for detail_steps in [vec![1, 0], vec![0, 0], vec![0, 2], vec![1, 2]] {
        let (pcs, ops) = base();
        let store = StepStore::from_columns(pcs, ops, detail_steps, vec![detail(0), detail(0)]);
        assert_eq!(store, Err(StepStoreError::DetailStepsOrder));
    }
    // The length of the opcodes is the first thing looked at, the order the last.
    let all = StepStore::from_columns(vec![0, 1], vec![ADD], vec![5, 5], vec![]);
    assert_eq!(all, Err(StepStoreError::OpsLength));
    let two = StepStore::from_columns(vec![0], vec![ADD], vec![5, 5], vec![]);
    assert_eq!(two, Err(StepStoreError::DetailStepsLength));
}

#[test]
fn errors_have_texts() {
    assert_eq!(StepStoreError::OpsLength.message(), "`pcs` and `ops` differ in length");
    assert_eq!(
        StepStoreError::DetailStepsLength.message(),
        "`detail_steps` and `details` differ in length"
    );
    assert_eq!(
        StepStoreError::DetailStepsOrder.message(),
        "`detail_steps` must be strictly increasing indices into the base track"
    );
}

#[test]
fn bytes_count_columns_and_records() {
    let record = core::mem::size_of::<StepDetail>();
    let capacities = ColumnCapacities { pcs: 8, ops: 9, detail_steps: 4, details: 3 };
    assert_eq!(capacities.bytes(), 8 * 4 + 9 + 4 * 4 + 3 * record);
    let mut store = store();
    store.detail_mut(1).unwrap().returndata = Bytes::from(vec![0; 50]);
    assert_eq!(store.bytes_with(capacities), capacities.bytes() + 50);
    let actual = store.capacities();
    assert!(actual.pcs >= 5 && actual.ops >= 5 && actual.detail_steps >= 2 && actual.details >= 2);
    assert_eq!(store.capacity_bytes(), actual.bytes());
    assert_eq!(store.bytes(), actual.bytes() + 50);
    let huge = ColumnCapacities { pcs: usize::MAX, ops: 0, detail_steps: 0, details: 0 };
    assert_eq!(huge.bytes(), usize::MAX);
    assert_eq!(store.bytes_with(huge), usize::MAX);
}

#[test]
fn a_base_track_takes_five_bytes_for_each_step() {
    for steps in [0, 1, 1000] {
        let capacities =
            ColumnCapacities { pcs: steps, ops: steps, detail_steps: 0, details: 0 };
        assert_eq!(capacities.bytes(), 5 * steps);
    }
}

fn full_detail() -> StepDetail {
    StepDetail {
        stack: Some(vec![U256::from(1), U256::from(2)].into_boxed_slice()),
        push_stack: Some(vec![U256::from(3)].into_boxed_slice()),
        memory: Some(RecordedMemory::new(&[0xab; 33])),
        returndata: Bytes::from(vec![1, 2, 3]),
        gas_remaining: 90,
        gas_refund_counter: 5,
        gas_used: 10,
        gas_cost: 3,
        storage_change: Some(Box::new(StorageChange {
            key: U256::from(4),
            value: U256::from(5),
            had_value: None,
            reason: StorageChangeReason::SSTORE,
        })),
        status: Some(InstructionResult::OutOfGas),
        immediate_bytes: Some(Bytes::from(vec![9; 7])),
        decoded: Some(Box::new(DecodedTraceStep::Line("line".to_string()))),
    }
}

#[test]
fn records_count_the_bytes_they_own() {
    assert_eq!(StepDetail::default().owned_bytes(), 0);
    assert_eq!(
        full_detail().owned_bytes(),
        2 * 32
            + 32
            + 33
            + 3
            + 7
            + core::mem::size_of::<StorageChange>()
            + core::mem::size_of::<DecodedTraceStep>()
    );
}

#[test]
fn a_cloned_record_has_the_same_contents() {
    assert_eq!(full_detail().clone(), full_detail());
    let call = DecodedInternalCall {
        func_name: "f".to_string(),
        args: Some(vec!["1".to_string(), "2".to_string()]),
        return_data: None,
    };
    let step = DecodedTraceStep::InternalCall(call, 4);
    assert_eq!(step.clone(), step);
}

#[test]
fn failed_steps_have_an_error() {
    let with_status = |status| StepDetail { status, ..Default::default() };
    assert_eq!(with_status(None).as_error(), None);
    assert_eq!(with_status(Some(InstructionResult::Stop)).as_error(), None);
    assert!(!with_status(None).is_error());
    assert!(!with_status(Some(InstructionResult::SelfDestruct)).is_error());
    assert!(with_status(Some(InstructionResult::Revert)).is_error());
    assert_eq!(with_status(Some(InstructionResult::Revert)).as_error().unwrap(), "Some(Revert)");
    assert!(with_status(Some(InstructionResult::CallTooDeep)).is_error());
    assert!(with_status(Some(InstructionResult::OutOfGas)).is_error());
    assert_eq!(
        with_status(Some(InstructionResult::OutOfGas)).as_error().unwrap(),
        "Some(OutOfGas)"
    );
    let invalid_jump = with_status(Some(InstructionResult::InvalidJump));
    assert_eq!(invalid_jump.as_error().unwrap(), format!("{:?}", invalid_jump.status));
}

#[test]
fn decoded_data_is_initialised_once() {
    let mut detail = StepDetail::default();
    assert_eq!(*detail.decoded_mut(), DecodedTraceStep::Line(String::new()));
    *detail.decoded_mut() = DecodedTraceStep::Line("x".to_string());
    assert_eq!(*detail.decoded_mut(), DecodedTraceStep::Line("x".to_string()));
}

#[test]
fn memory_is_cut_into_chunks() {
    assert!(RecordedMemory::new(&[]).memory_chunks().is_empty());
    assert!(RecordedMemory::default().is_empty());
    let mut mem: Vec<u8> = (0..32).collect();
    let first = "000102030405060708090a0b0c0d0e0f101112131415161718191a1b1c1d1e1f";
    assert_eq!(RecordedMemory::new(&mem).memory_chunks(), [first]);
    mem.extend([0xff, 0xa0]);
    let second = "ffa0000000000000000000000000000000000000000000000000000000000000";
    let memory = RecordedMemory::new(&mem);
    assert_eq!(memory.memory_chunks(), [first, second]);
    assert_eq!(convert_memory(&mem), [first, second]);
    assert_eq!(memory.len(), 34);
    assert!(!memory.is_empty());
    assert_eq!(memory.as_ref(), &mem[..]);
    assert_eq!(memory.as_bytes(), &Bytes::from(mem.clone()));
    assert_eq!(memory.clone(), memory);
    assert_eq!(memory.into_bytes(), Bytes::from(mem));
}

#[test]
fn struct_logs_show_the_step() {
    let mut store = StepStore::default();
    store.push(4, OpCode(ADD));
    store.push_detail(0, full_detail());
    let step = store.detailed(0).unwrap();
    let log = step.convert_to_geth_struct_log(&GethDefaultTracingOptions::default(), 3);
    assert_eq!((log.pc, log.op, log.depth), (4, "ADD", 3));
    assert_eq!((log.gas, log.gas_cost, log.refund_counter), (90, 3, Some(5)));
    assert_eq!(log.error.as_deref(), Some("Some(OutOfGas)"));
    assert_eq!(log.stack, Some(vec![U256::from(1), U256::from(2)]));
    assert_eq!(log.memory, None);
    assert!(log.storage.is_none() && log.return_data.is_none() && log.memory_size.is_none());
    assert_eq!(step.storage_change().unwrap().value, U256::from(5));
    assert_eq!(step.decoded(), Some(&DecodedTraceStep::Line("line".to_string())));
}

#[test]
fn options_decide_what_is_captured() {
    let memory = |enable_memory, disable_memory| {
        GethDefaultTracingOptions { enable_memory, disable_memory, ..Default::default() }
            .is_memory_enabled()
    };
    assert!(!memory(None, None));
    assert!(memory(Some(true), None));
    assert!(memory(Some(true), Some(true)));
    assert!(!memory(Some(false), Some(false)));
    assert!(memory(None, Some(false)));
    assert!(!memory(None, Some(true)));
    let stack = |disable_stack| {
        GethDefaultTracingOptions { disable_stack, ..Default::default() }.is_stack_enabled()
    };
    assert!(stack(None) && stack(Some(false)) && !stack(Some(true)));

    let mut store = StepStore::default();
    store.push(4, OpCode(0x0c));
    store.push_detail(0, full_detail());
    let opts = GethDefaultTracingOptions {
        enable_memory: Some(true),
        disable_memory: None,
        disable_stack: Some(true),
    };
    let log = store.detailed(0).unwrap().convert_to_geth_struct_log(&opts, 1);
    assert_eq!(log.op, "Unknown");
    assert_eq!(log.stack, None);
    let chunks = log.memory.unwrap();
    assert_eq!(chunks[0], "ab".repeat(32));
    assert_eq!(chunks[1], format!("ab{}", "0".repeat(62)));
}
