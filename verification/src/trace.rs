//! The trace of a single call.

use alloy_primitives::{Address, Bytes, U256};
use vstd::prelude::*;

use crate::decoded::{DecodedCallData, DecodedCallTrace};
use crate::kind::CallKind;
use crate::primitives::{
    address_zero, bytes_seq, is_word, is_zero_address, same_bytes, u256_zero,
};
use crate::status::{InstructionResult, TraceStyle};
use crate::store::{DetailedStepIter, DetailedStepRef, StepIter, StepStore, StepTracks};

verus! {

/// A trace of a call with optional decoded data.
#[derive(Debug, PartialEq, Eq)]
pub struct CallTrace {
    /// The depth of the call.
    ///
    /// Zero represents the root trace node.
    ///
    /// The depth of a call's steps is the depth of the call plus one.
    pub depth: usize,
    /// Whether the call was successful.
    pub success: bool,
    /// The caller address.
    pub caller: Address,
    /// The target address of this call.
    ///
    /// This is:
    /// - [`CallKind::Call`] and alike: the callee, the address of the contract being called
    /// - [`CallKind::Create`] and alike: the address of the created contract
    pub address: Address,
    /// Whether this is a call to a precompile.
    ///
    /// Note: This is optional because not all tracers make use of this.
    pub maybe_precompile: Option<bool>,
    /// The address of the selfdestructed contract.
    pub selfdestruct_address: Option<Address>,
    /// Holds the target for the selfdestruct refund target.
    ///
    /// This is only `Some` if a selfdestruct was executed and the call is executed before the
    /// Cancun hardfork.
    ///
    /// See [`is_selfdestruct`](Self::is_selfdestruct) for more information.
    pub selfdestruct_refund_target: Option<Address>,
    /// The value transferred on a selfdestruct.
    ///
    /// This is only `Some` if a selfdestruct was executed and the call is executed before the
    /// Cancun hardfork.
    ///
    /// See [`is_selfdestruct`](Self::is_selfdestruct) for more information.
    pub selfdestruct_transferred_value: Option<U256>,
    /// The kind of call.
    pub kind: CallKind,
    /// The value transferred in the call.
    pub value: U256,
    /// The calldata/input, or the init code for contract creations.
    pub data: Bytes,
    /// The return data, or the runtime bytecode of the created contract.
    pub output: Bytes,
    /// The total gas cost of the call.
    pub gas_used: u64,
    /// The gas limit of the call.
    pub gas_limit: u64,
    /// The cumulative refund counter for the entire transaction context at the end of this call.
    pub gas_refund_counter: u64,
    /// The final status of the call.
    pub status: Option<InstructionResult>,
    /// Opcode-level execution steps: the program counter and opcode of every executed step, and
    /// a detail record for the steps that were recorded in full (see [`StepStore`]).
    ///
    /// Prefer reading these through [`Self::iter_steps`], [`Self::iter_detailed_steps`] and
    /// [`Self::detailed_step`]: direct access couples the reader to how steps are stored.
    pub steps: StepStore,
    /// Optional complementary decoded call data.
    pub decoded: Option<Box<DecodedCallTrace>>,
}

impl Default for CallTrace {
    fn default() -> (r: Self)
        ensures
            r.is_blank(),
            r.steps.wf(),
    {
        CallTrace {
            depth: 0,
            success: false,
            caller: address_zero(),
            address: address_zero(),
            maybe_precompile: None,
            selfdestruct_address: None,
            selfdestruct_refund_target: None,
            selfdestruct_transferred_value: None,
            kind: CallKind::default(),
            value: u256_zero(),
            data: Bytes::new(),
            output: Bytes::new(),
            gas_used: 0,
            gas_limit: 0,
            gas_refund_counter: 0,
            status: None,
            steps: StepStore::default(),
            decoded: None,
        }
    }
}

impl Clone for CallTrace {
    fn clone(&self) -> (r: Self)
        ensures
            r.same_contents(self),
            self.steps.wf() ==> r.steps.wf(),
    {
        CallTrace {
            depth: self.depth,
            success: self.success,
            caller: self.caller,
            address: self.address,
            maybe_precompile: self.maybe_precompile,
            selfdestruct_address: self.selfdestruct_address,
            selfdestruct_refund_target: self.selfdestruct_refund_target,
            selfdestruct_transferred_value: self.selfdestruct_transferred_value,
            kind: self.kind,
            value: self.value,
            data: self.data.clone(),
            output: self.output.clone(),
            gas_used: self.gas_used,
            gas_limit: self.gas_limit,
            gas_refund_counter: self.gas_refund_counter,
            status: self.status,
            steps: self.steps.clone(),
            decoded: match &self.decoded {
                Some(decoded) => Some(Box::new((**decoded).clone())),
                None => None,
            },
        }
    }
}

impl CallTrace {
    /// Nothing was filled in.
    pub open spec fn is_blank(&self) -> bool {
        &&& self.depth == 0
        &&& !self.success
        &&& is_zero_address(self.caller)
        &&& is_zero_address(self.address)
        &&& self.maybe_precompile is None
        &&& self.selfdestruct_address is None
        &&& self.selfdestruct_refund_target is None
        &&& self.selfdestruct_transferred_value is None
        &&& self.kind is Call
        &&& is_word(self.value, 0)
        &&& bytes_seq(self.data).len() == 0
        &&& bytes_seq(self.output).len() == 0
        &&& self.gas_used == 0
        &&& self.gas_limit == 0
        &&& self.gas_refund_counter == 0
        &&& self.status is None
        &&& self.steps@ == StepTracks::empty()
        &&& self.decoded is None
    }

    /// The two traces hold the same contents.
    pub open spec fn same_contents(&self, other: &CallTrace) -> bool {
        &&& self.depth == other.depth
        &&& self.success == other.success
        &&& self.caller == other.caller
        &&& self.address == other.address
        &&& self.maybe_precompile == other.maybe_precompile
        &&& self.selfdestruct_address == other.selfdestruct_address
        &&& self.selfdestruct_refund_target == other.selfdestruct_refund_target
        &&& self.selfdestruct_transferred_value == other.selfdestruct_transferred_value
        &&& self.kind == other.kind
        &&& self.value == other.value
        &&& same_bytes(self.data, other.data)
        &&& same_bytes(self.output, other.output)
        &&& self.gas_used == other.gas_used
        &&& self.gas_limit == other.gas_limit
        &&& self.gas_refund_counter == other.gas_refund_counter
        &&& self.status == other.status
        &&& self.steps@.same_contents(other.steps@)
        &&& match (self.decoded, other.decoded) {
            (Some(a), Some(b)) => a@ == b@,
            (None, None) => true,
            _ => false,
        }
    }

    /// The call ended in an error or a revert.
    pub open spec fn failed(&self) -> bool {
        self.status matches Some(status) && !status.success()
    }

    /// The call ended in the `REVERT` opcode.
    pub open spec fn reverted(&self) -> bool {
        self.status == Some(InstructionResult::Revert)
    }

    /// The call destroyed its contract.
    pub open spec fn selfdestructed(&self) -> bool {
        self.status == Some(InstructionResult::SelfDestruct)
            || self.selfdestruct_refund_target is Some
    }

    /// `message` is what `fmt_error_msg` says of the status in the given style; no status has no
    /// message.
    pub open spec fn is_error_msg<F: Fn(InstructionResult, TraceStyle) -> Option<String>>(
        &self,
        kind: TraceStyle,
        fmt_error_msg: F,
        message: Option<String>,
    ) -> bool {
        match self.status {
            Some(status) => fmt_error_msg.ensures((status, kind), message),
            None => message is None,
        }
    }

    /// Returns how many steps the base track holds: every step executed while step recording was
    /// enabled. See [`Self::detailed_step_count`] for the steps recorded in full.
    pub fn step_count(&self) -> (r: usize)
        ensures
            r == self.steps@.base.len(),
    {
        self.steps.len()
    }

    /// Returns how many steps were recorded in full, i.e. how many [`Self::iter_detailed_steps`]
    /// yields.
    pub fn detailed_step_count(&self) -> (r: usize)
        ensures
            r == self.steps@.overlay.len(),
            r == self.steps@.detailed_steps().len(),
    {
        self.steps.detailed_len()
    }

    /// Returns a walk over every step in the base track, in execution order.
    pub fn iter_steps(&self) -> (r: StepIter<'_>)
        requires
            self.steps.wf(),
        ensures
            r.wf(),
            r@ == self.steps@.steps(),
    {
        self.steps.iter()
    }

    /// Returns a walk over the steps that were recorded in full, in execution order.
    pub fn iter_detailed_steps(&self) -> (r: DetailedStepIter<'_>)
        requires
            self.steps.wf(),
        ensures
            r.wf(),
            r@ == self.steps@.detailed_steps(),
    {
        self.steps.iter_detailed()
    }

    /// Returns the step recorded in full at `idx` in the detail overlay.
    ///
    /// Indices come from the enclosing [`crate::node::CallTraceNode::ordering`] (a
    /// [`crate::node::TraceMemberOrder::Step`] entry) and from
    /// [`crate::decoded::DecodedTraceStep::InternalCall`].
    pub fn detailed_step(&self, idx: usize) -> (r: Option<DetailedStepRef<'_>>)
        requires
            self.steps.wf(),
        ensures
            match r {
                Some(step) => {
                    &&& idx < self.steps@.overlay.len()
                    &&& step@ == self.steps@.detailed(idx as int)
                },
                None => idx >= self.steps@.overlay.len(),
            },
    {
        self.steps.detailed(idx)
    }

    /// Returns the last step recorded in full, if any.
    pub fn last_detailed_step(&self) -> (r: Option<DetailedStepRef<'_>>)
        requires
            self.steps.wf(),
        ensures
            match r {
                Some(step) => {
                    &&& self.steps@.overlay.len() > 0
                    &&& step@ == self.steps@.detailed(self.steps@.overlay.len() - 1)
                },
                None => self.steps@.overlay.len() == 0,
            },
    {
        self.steps.last_detailed()
    }

    /// Returns true if the status code is an error or revert, See [InstructionResult::Revert]
    pub fn is_error(&self) -> (r: bool)
        ensures
            r == self.failed(),
    {
        match self.status {
            Some(status) => !status.is_ok(),
            None => false,
        }
    }

    /// Returns true if the status code is a revert.
    pub fn is_revert(&self) -> (r: bool)
        ensures
            r == self.reverted(),
    {
        match self.status {
            Some(status) => status == InstructionResult::Revert,
            None => false,
        }
    }

    /// Returns `true` if this trace was a selfdestruct.
    ///
    /// We can't rely entirely on [`Self::status`] being [`InstructionResult::SelfDestruct`]
    /// because there's an edge case where a new created contract (CREATE) is immediately
    /// selfdestructed.
    ///
    /// We also can't rely entirely on `selfdestruct_refund_target` being `Some` as the
    /// `selfdestruct` inspector function will not be called after the Cancun hardfork.
    pub fn is_selfdestruct(&self) -> (r: bool)
        ensures
            r == self.selfdestructed(),
    {
        matches!(self.status, Some(InstructionResult::SelfDestruct))
            || self.selfdestruct_refund_target.is_some()
    }

    /// Returns the error message if it is an erroneous result: what `fmt_error_msg` says of the
    /// status in the given style.
    pub fn as_error_msg<F: Fn(InstructionResult, TraceStyle) -> Option<String>>(
        &self,
        kind: TraceStyle,
        fmt_error_msg: F,
    ) -> (r: Option<String>)
        requires
            self.status matches Some(status) ==> fmt_error_msg.requires((status, kind)),
        ensures
            self.is_error_msg(kind, fmt_error_msg, r),
    {
        match self.status {
            Some(status) => fmt_error_msg(status, kind),
            None => None,
        }
    }

    /// Gets the decoded call trace.
    ///
    /// Initializes with the default value if not yet set.
    pub fn decoded(&mut self) -> (r: &mut DecodedCallTrace)
        ensures
            match old(self).decoded {
                Some(decoded) => *r == *decoded,
                None => *r == (DecodedCallTrace {
                    label: None,
                    return_data: None,
                    call_data: None,
                }),
            },
            *final(self) == (CallTrace { decoded: Some(Box::new(*final(r))), ..*old(self) }),
    {
        let decoded: &mut Box<DecodedCallTrace> = self.decoded.get_or_insert(
            Box::new(DecodedCallTrace::default()),
        );
        &mut **decoded
    }

    /// Returns the decoded label, or `fallback` if there is none.
    pub fn decoded_label<'a>(&'a self, fallback: &'a str) -> (r: &'a str)
        ensures
            match self.decoded {
                Some(decoded) => match decoded.label {
                    Some(label) => r@ == label@,
                    None => r == fallback,
                },
                None => r == fallback,
            },
    {
        match &self.decoded {
            Some(decoded) => match &decoded.label {
                Some(label) => label.as_str(),
                None => fallback,
            },
            None => fallback,
        }
    }

    /// Returns the decoded call data, if there is any.
    pub fn decoded_call_data(&self) -> (r: Option<&DecodedCallData>)
        ensures
            match r {
                Some(data) => self.decoded is Some && self.decoded->0.call_data == Some(*data),
                None => self.decoded is None || self.decoded->0.call_data is None,
            },
    {
        match &self.decoded {
            Some(decoded) => match &decoded.call_data {
                Some(data) => Some(data),
                None => None,
            },
            None => None,
        }
    }

    /// Returns the decoded return data, if there is any.
    pub fn decoded_return_data(&self) -> (r: Option<&str>)
        ensures
            match r {
                Some(data) => self.decoded is Some && self.decoded->0@.return_data == Some(data@),
                None => self.decoded is None || self.decoded->0.return_data is None,
            },
    {
        match &self.decoded {
            Some(decoded) => match &decoded.return_data {
                Some(data) => Some(data.as_str()),
                None => None,
            },
            None => None,
        }
    }
}

} // verus!
