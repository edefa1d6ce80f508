//! The frames and struct logs that geth's tracing interface reports.

use std::collections::BTreeMap;

use alloy_primitives::{Address, Bytes, B256, U256};
use vstd::prelude::*;

use crate::detail::{chunk, chunk_count, words_to_vec};
use crate::opcode::{opcode_known, opcode_name, spec_name_in_log};
use crate::primitives::hex_chars;
use crate::store::DetailedStepRef;

verus! {

/// `GethDefaultTracingOptions::is_stack_enabled` of `alloy_rpc_types_trace`: stack capture is on
/// unless `disable_stack` is set to true.
#[verifier::external_body]
fn stack_enabled(disable_stack: Option<bool>) -> (r: bool)
    ensures
        r == (disable_stack != Some(true)),
{
    alloy_rpc_types_trace::geth::GethDefaultTracingOptions {
        disable_stack,
        ..Default::default()
    }.is_stack_enabled()
}

/// `GethDefaultTracingOptions::is_memory_enabled` of `alloy_rpc_types_trace`: `enable_memory`
/// decides where it is present, else the opposite of `disable_memory`; where both are missing,
/// memory capture is off.
#[verifier::external_body]
fn memory_enabled(enable_memory: Option<bool>, disable_memory: Option<bool>) -> (r: bool)
    ensures
        r == match enable_memory {
            Some(enable) => enable,
            None => disable_memory == Some(false),
        },
{
    alloy_rpc_types_trace::geth::GethDefaultTracingOptions {
        enable_memory,
        disable_memory,
        ..Default::default()
    }.is_memory_enabled()
}

/// The options of the struct logger that decide what a struct log captures.
#[derive(Clone, Copy, Debug, Default, PartialEq, Eq)]
pub struct GethDefaultTracingOptions {
    /// Enable memory capture
    pub enable_memory: Option<bool>,
    /// Disable memory capture. This is the opposite of `enable_memory`, which takes precedence.
    pub disable_memory: Option<bool>,
    /// Disable stack capture
    pub disable_stack: Option<bool>,
}

impl GethDefaultTracingOptions {
    /// The stack is captured.
    pub open spec fn captures_stack(self) -> bool {
        self.disable_stack != Some(true)
    }

    /// Memory is captured.
    pub open spec fn captures_memory(self) -> bool {
        match self.enable_memory {
            Some(enable) => enable,
            None => self.disable_memory == Some(false),
        }
    }

    /// Returns `true` if stack capture is enabled
    pub fn is_stack_enabled(&self) -> (r: bool)
        ensures
            r == self.captures_stack(),
    {
        stack_enabled(self.disable_stack)
    }

    /// Returns `true` if memory capture is enabled
    pub fn is_memory_enabled(&self) -> (r: bool)
        ensures
            r == self.captures_memory(),
    {
        memory_enabled(self.enable_memory, self.disable_memory)
    }
}

/// A log in a [`CallFrame`].
#[derive(Debug, Default, PartialEq, Eq)]
pub struct CallLogFrame {
    /// The address of the contract that emitted the log.
    pub address: Option<Address>,
    /// The topics of the log.
    pub topics: Option<Vec<B256>>,
    /// The data of the log.
    pub data: Option<Bytes>,
    /// The position of the log relative to subcalls within the same trace.
    pub position: Option<u64>,
    /// The index of the log in the trace.
    pub index: Option<u64>,
}

/// A frame of the call tracer.
#[derive(Debug, Default, PartialEq, Eq)]
pub struct CallFrame {
    /// The address of that initiated the call.
    pub from: Address,
    /// How much gas was left before the call.
    pub gas: U256,
    /// How much gas was used by the call.
    pub gas_used: U256,
    /// The address of the contract that was called.
    pub to: Option<Address>,
    /// Calldata input.
    pub input: Bytes,
    /// Output of the call, if any.
    pub output: Option<Bytes>,
    /// Error message, if any.
    pub error: Option<String>,
    /// Why this call reverted, if it reverted.
    pub revert_reason: Option<String>,
    /// Recorded child calls.
    pub calls: Vec<CallFrame>,
    /// Logs emitted by this call.
    pub logs: Vec<CallLogFrame>,
    /// Value transferred.
    pub value: Option<U256>,
    /// The type of the call.
    pub typ: String,
}

/// A struct log entry in a trace.
#[derive(Debug, Default, PartialEq, Eq)]
pub struct StructLog {
    /// program counter
    pub pc: u64,
    /// opcode to be executed
    pub op: &'static str,
    /// remaining gas
    pub gas: u64,
    /// cost for executing op
    pub gas_cost: u64,
    /// Current call depth
    pub depth: u64,
    /// Error message if any
    pub error: Option<String>,
    /// EVM stack
    pub stack: Option<Vec<U256>>,
    /// Last call's return data.
    pub return_data: Option<Bytes>,
    /// Memory, in hex-encoded chunks.
    pub memory: Option<Vec<String>>,
    /// Size of memory.
    pub memory_size: Option<u64>,
    /// Storage slots of current contract read from and written to.
    pub storage: Option<BTreeMap<B256, B256>>,
    /// Refund counter
    pub refund_counter: Option<u64>,
}

impl<'a> DetailedStepRef<'a> {
    /// Converts this step into a geth [StructLog]
    ///
    /// This sets memory and stack capture based on the `opts` parameter.
    pub fn convert_to_geth_struct_log(&self, opts: &GethDefaultTracingOptions, depth: u64) -> (r:
        StructLog)
        ensures
            r.depth == depth,
            match r.error {
                Some(text) => self@.detail.error_text() == Some(text@),
                None => self@.detail.error_text() is None,
            },
            r.gas == self@.detail.gas_remaining,
            r.gas_cost == self@.detail.gas_cost,
            r.op@ == spec_name_in_log(opcode_known(self.op.0), opcode_name(self.op.0)),
            r.pc == self@.pc,
            r.refund_counter == Some(self@.detail.gas_refund_counter),
            match r.stack {
                Some(stack) => opts.captures_stack() && self@.detail@.stack == Some(stack@),
                None => !opts.captures_stack() || self@.detail.stack is None,
            },
            match r.memory {
                Some(chunks) => {
                    &&& opts.captures_memory()
                    &&& self@.detail.memory is Some
                    &&& chunks@.len() == chunk_count(self@.detail.memory->0@.len())
                    &&& forall|i: int|
                        0 <= i < chunks@.len() ==> (#[trigger] chunks@[i])@ == hex_chars(
                            chunk(self@.detail.memory->0@, i),
                        )
                },
                None => !opts.captures_memory() || self@.detail.memory is None,
            },
            r.storage is None,
            r.return_data is None,
            r.memory_size is None,
    {
        let stack = if opts.is_stack_enabled() {
            match &self.detail.stack {
                Some(stack) => Some(words_to_vec(stack)),
                None => None,
            }
        } else {
            None
        };
        let memory = if opts.is_memory_enabled() {
            match &self.detail.memory {
                Some(memory) => Some(memory.memory_chunks()),
                None => None,
            }
        } else {
            None
        };
        StructLog {
            depth,
            error: self.detail.as_error(),
            gas: self.detail.gas_remaining,
            gas_cost: self.detail.gas_cost,
            op: self.op.log_name(),
            pc: self.pc as u64,
            refund_counter: Some(self.detail.gas_refund_counter),
            stack,
            memory,
            // Filled from external storage.
            storage: None,
            // Filled from the enclosing node.
            return_data: None,
            // Not reported.
            memory_size: None,
        }
    }
}

} // verus!
