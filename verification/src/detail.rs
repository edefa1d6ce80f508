//! What is recorded of a step that is recorded in full.

use alloy_primitives::{Bytes, U256};
use vstd::layout::size_of;
use vstd::prelude::*;
use vstd::string::StringExecFns;

use crate::decoded::{DecodedTraceStep, DecodedTraceStepView};
use crate::primitives::{bytes_as_slice, bytes_seq, hex_chars, hex_encode};
use crate::status::InstructionResult;

verus! {

/// The source of a storage change: whether it came from an SSTORE or SLOAD instruction.
#[allow(clippy::upper_case_acronyms)]
#[derive(Clone, Copy, Debug, PartialEq, Eq, Structural)]
pub enum StorageChangeReason {
    /// SLOAD opcode
    SLOAD,
    /// SSTORE opcode
    SSTORE,
}

/// A storage change during execution.
///
/// It is used to track both storage change and warm load of a storage slot. For warm load in regard
/// to EIP-2929 AccessList had_value will be None.
#[derive(Clone, Copy, Debug, PartialEq, Eq)]
pub struct StorageChange {
    /// key of the storage slot
    pub key: U256,
    /// Current value of the storage slot
    pub value: U256,
    /// The previous value of the storage slot, if any
    pub had_value: Option<U256>,
    /// How this storage was accessed
    pub reason: StorageChangeReason,
}

/// The size of a memory chunk.
pub const CHUNK: usize = 32;

/// How many chunks cover memory of length `len`.
pub open spec fn chunk_count(len: nat) -> nat {
    (len + 31) / 32
}

/// The bytes of the `i`-th chunk of `mem`. Memory reads as zero past its end, so every chunk has
/// its full size.
pub open spec fn chunk(mem: Seq<u8>, i: int) -> Seq<u8> {
    Seq::new(
        32,
        |j: int|
            if 32 * i + j < mem.len() {
                mem[32 * i + j]
            } else {
                0
            },
    )
}

/// Copies the chunk of `mem` that begins at `start`.
fn chunk_at(mem: &[u8], start: usize) -> (r: Vec<u8>)
    requires
        start <= mem@.len(),
        start % 32 == 0,
    ensures
        r@ == chunk(mem@, start as int / 32),
{
    let mut part: Vec<u8> = Vec::new();
    while part.len() < CHUNK
        invariant
            part@.len() <= 32,
            start <= mem@.len(),
            start % 32 == 0,
            forall|j: int|
                0 <= j < part@.len() ==> part@[j] == chunk(mem@, start as int / 32)[j],
        decreases 32 - part@.len(),
    {
        let byte: u8 = if part.len() < mem.len() - start {
            mem[start + part.len()]
        } else {
            0
        };
        part.push(byte);
    }
    assert(part@ =~= chunk(mem@, start as int / 32));
    part
}

/// Splits `mem` into 32-byte chunks and encodes each in hexadecimal.
pub fn convert_memory(mem: &[u8]) -> (r: Vec<String>)
    ensures
        r@.len() == chunk_count(mem@.len()),
        forall|i: int|
            0 <= i < r@.len() ==> (#[trigger] r@[i])@ == hex_chars(chunk(mem@, i)),
{
    let mut memory: Vec<String> = Vec::new();
    let mut start: usize = 0;
    while start < mem.len()
        invariant
            start <= mem@.len(),
            start < mem@.len() ==> start == 32 * memory@.len(),
            start == mem@.len() ==> memory@.len() == chunk_count(mem@.len()),
            forall|i: int|
                0 <= i < memory@.len() ==> (#[trigger] memory@[i])@ == hex_chars(chunk(mem@, i)),
        decreases mem@.len() - start,
    {
        let part = chunk_at(mem, start);
        memory.push(hex_encode(part.as_slice()));
        start = if mem.len() - start < CHUNK {
            mem.len()
        } else {
            start + CHUNK
        };
    }
    memory
}

/// The memory captured during execution.
#[derive(Debug, PartialEq, Eq)]
pub struct RecordedMemory(pub Bytes);

impl View for RecordedMemory {
    type V = Seq<u8>;

    open spec fn view(&self) -> Seq<u8> {
        bytes_seq(self.0)
    }
}

impl Default for RecordedMemory {
    fn default() -> (r: Self)
        ensures
            r@.len() == 0,
    {
        RecordedMemory(Bytes::new())
    }
}

impl Clone for RecordedMemory {
    fn clone(&self) -> (r: Self)
        ensures
            r@ == self@,
    {
        RecordedMemory(self.0.clone())
    }
}

impl RecordedMemory {
    /// Captures a copy of `mem`.
    pub fn new(mem: &[u8]) -> (r: Self)
        ensures
            r@ == mem@,
    {
        if mem.is_empty() {
            return RecordedMemory(Bytes::new());
        }
        RecordedMemory(Bytes::copy_from_slice(mem))
    }

    /// Returns the memory as a byte slice
    pub fn as_bytes(&self) -> (r: &Bytes)
        ensures
            *r == self.0,
    {
        &self.0
    }

    /// Returns the memory as a byte vector
    pub fn into_bytes(self) -> (r: Bytes)
        ensures
            r == self.0,
    {
        self.0
    }

    /// Returns the size of the memory.
    pub fn len(&self) -> (r: usize)
        ensures
            r == self@.len(),
    {
        bytes_as_slice(&self.0).len()
    }

    /// Returns whether the memory is empty.
    pub fn is_empty(&self) -> (r: bool)
        ensures
            r == (self@.len() == 0),
    {
        bytes_as_slice(&self.0).is_empty()
    }

    /// Formats memory data into a list of 32-byte hex-encoded chunks.
    ///
    /// See: <https://github.com/ethereum/go-ethereum/blob/366d2169fbc0e0f803b68c042b77b6b480836dbc/eth/tracers/logger/logger.go#L450-L452>
    pub fn memory_chunks(&self) -> (r: Vec<String>)
        ensures
            r@.len() == chunk_count(self@.len()),
            forall|i: int|
                0 <= i < r@.len() ==> (#[trigger] r@[i])@ == hex_chars(chunk(self@, i)),
    {
        convert_memory(bytes_as_slice(self.as_bytes()))
    }
}

impl AsRef<[u8]> for RecordedMemory {
    fn as_ref(&self) -> (r: &[u8])
        ensures
            r@ == self@,
    {
        bytes_as_slice(self.as_bytes())
    }
}

/// The detail record of a step that was recorded in full: everything about the step besides its
/// program counter and opcode, which every step keeps in the base track of a
/// [`crate::store::StepStore`].
#[derive(Debug, PartialEq, Eq)]
pub struct StepDetail {
    // Fields filled in `step`
    /// Stack before step execution
    pub stack: Option<Box<[U256]>>,
    /// The new stack items placed by this step if any
    pub push_stack: Option<Box<[U256]>>,
    /// Memory before step execution.
    ///
    /// This will be `None` only if memory capture is disabled.
    pub memory: Option<RecordedMemory>,
    /// Returndata before step execution
    pub returndata: Bytes,
    /// Remaining gas before step execution
    pub gas_remaining: u64,
    /// Gas refund counter before step execution
    pub gas_refund_counter: u64,
    /// Total gas used before step execution
    pub gas_used: u64,
    // Fields filled in `step_end`
    /// Gas cost of step execution
    pub gas_cost: u64,
    /// Change of the contract state after step execution (effect of the SLOAD/SSTORE instructions)
    pub storage_change: Option<Box<StorageChange>>,
    /// Final status of the step
    ///
    /// This is set after the step was executed.
    pub status: Option<InstructionResult>,
    /// Immediate bytes of the step
    pub immediate_bytes: Option<Bytes>,
    /// Optional complementary decoded step data.
    pub decoded: Option<Box<DecodedTraceStep>>,
}

/// The contents of a [`StepDetail`].
pub struct StepDetailView {
    /// Stack before step execution
    pub stack: Option<Seq<U256>>,
    /// The new stack items placed by this step if any
    pub push_stack: Option<Seq<U256>>,
    /// Memory before step execution.
    pub memory: Option<Seq<u8>>,
    /// Returndata before step execution
    pub returndata: Seq<u8>,
    /// Remaining gas before step execution
    pub gas_remaining: u64,
    /// Gas refund counter before step execution
    pub gas_refund_counter: u64,
    /// Total gas used before step execution
    pub gas_used: u64,
    /// Gas cost of step execution
    pub gas_cost: u64,
    /// Change of the contract state after step execution
    pub storage_change: Option<StorageChange>,
    /// Final status of the step
    pub status: Option<InstructionResult>,
    /// Immediate bytes of the step
    pub immediate_bytes: Option<Seq<u8>>,
    /// Optional complementary decoded step data.
    pub decoded: Option<DecodedTraceStepView>,
}

/// The words of an optional stack.
pub open spec fn opt_words(v: Option<Box<[U256]>>) -> Option<Seq<U256>> {
    match v {
        Some(v) => Some(v@),
        None => None,
    }
}

/// The bytes of an optional buffer.
pub open spec fn opt_bytes(v: Option<Bytes>) -> Option<Seq<u8>> {
    match v {
        Some(v) => Some(bytes_seq(v)),
        None => None,
    }
}

impl View for StepDetail {
    type V = StepDetailView;

    open spec fn view(&self) -> StepDetailView {
        StepDetailView {
            stack: opt_words(self.stack),
            push_stack: opt_words(self.push_stack),
            memory: match self.memory {
                Some(m) => Some(m@),
                None => None,
            },
            returndata: bytes_seq(self.returndata),
            gas_remaining: self.gas_remaining,
            gas_refund_counter: self.gas_refund_counter,
            gas_used: self.gas_used,
            gas_cost: self.gas_cost,
            storage_change: match self.storage_change {
                Some(c) => Some(*c),
                None => None,
            },
            status: self.status,
            immediate_bytes: opt_bytes(self.immediate_bytes),
            decoded: match self.decoded {
                Some(d) => Some(d@),
                None => None,
            },
        }
    }
}

/// Copies the words of a stack.
pub fn words_to_vec(words: &[U256]) -> (r: Vec<U256>)
    ensures
        r@ == words@,
{
    let mut copy: Vec<U256> = Vec::new();
    while copy.len() < words.len()
        invariant
            copy@.len() <= words@.len(),
            forall|i: int| 0 <= i < copy@.len() ==> copy@[i] == words@[i],
        decreases words@.len() - copy@.len(),
    {
        let word = words[copy.len()];
        copy.push(word);
    }
    assert(copy@ =~= words@);
    copy
}

/// `Vec::into_boxed_slice` keeps the items of the vector.
#[verifier::external_body]
fn into_boxed_words(v: Vec<U256>) -> (r: Box<[U256]>)
    ensures
        r@ == v@,
{
    v.into_boxed_slice()
}

fn clone_opt_words(v: &Option<Box<[U256]>>) -> (r: Option<Box<[U256]>>)
    ensures
        opt_words(r) == opt_words(*v),
{
    match v {
        Some(v) => Some(into_boxed_words(words_to_vec(v))),
        None => None,
    }
}

impl StepDetailView {
    /// A record in which nothing was filled in.
    pub open spec fn blank() -> Self {
        StepDetailView {
            stack: None,
            push_stack: None,
            memory: None,
            returndata: Seq::empty(),
            gas_remaining: 0,
            gas_refund_counter: 0,
            gas_used: 0,
            gas_cost: 0,
            storage_change: None,
            status: None,
            immediate_bytes: None,
            decoded: None,
        }
    }
}

impl Default for StepDetail {
    fn default() -> (r: Self)
        ensures
            r@ == StepDetailView::blank(),
    {
        StepDetail {
            stack: None,
            push_stack: None,
            memory: None,
            returndata: Bytes::new(),
            gas_remaining: 0,
            gas_refund_counter: 0,
            gas_used: 0,
            gas_cost: 0,
            storage_change: None,
            status: None,
            immediate_bytes: None,
            decoded: None,
        }
    }
}

impl Clone for StepDetail {
    fn clone(&self) -> (r: Self)
        ensures
            r@ == self@,
    {
        StepDetail {
            stack: clone_opt_words(&self.stack),
            push_stack: clone_opt_words(&self.push_stack),
            memory: match &self.memory {
                Some(m) => Some(m.clone()),
                None => None,
            },
            returndata: self.returndata.clone(),
            gas_remaining: self.gas_remaining,
            gas_refund_counter: self.gas_refund_counter,
            gas_used: self.gas_used,
            gas_cost: self.gas_cost,
            storage_change: match &self.storage_change {
                Some(c) => Some(Box::new(**c)),
                None => None,
            },
            status: self.status,
            immediate_bytes: match &self.immediate_bytes {
                Some(b) => Some(b.clone()),
                None => None,
            },
            decoded: match &self.decoded {
                Some(d) => Some(Box::new((**d).clone())),
                None => None,
            },
        }
    }
}

/// The length of an optional sequence, zero where there is none.
pub open spec fn opt_len<T>(s: Option<Seq<T>>) -> nat {
    match s {
        Some(s) => s.len(),
        None => 0,
    }
}

/// The lesser of `n` and `usize::MAX`.
pub open spec fn saturated(n: nat) -> usize {
    if n <= usize::MAX {
        n as usize
    } else {
        usize::MAX
    }
}

/// Multiplies, with `usize::MAX` in place of a product past it.
pub(crate) fn saturating_product(a: usize, b: usize) -> (r: usize)
    ensures
        r == saturated(a as nat * b as nat),
{
    match a.checked_mul(b) {
        Some(product) => product,
        None => usize::MAX,
    }
}

impl StepDetail {
    /// The step ended in an error or a revert.
    pub open spec fn spec_is_error(&self) -> bool {
        self.status matches Some(status) && !status.success()
    }

    /// The text of the error, if the step ended in one.
    pub open spec fn error_text(&self) -> Option<Seq<char>> {
        match self.status {
            Some(status) if !status.success() => Some("Some("@ + status.spec_name() + ")"@),
            _ => None,
        }
    }

    /// The heap bytes that the record owns: the snapshots and the boxed fields.
    pub open spec fn owned_size(&self) -> nat {
        opt_len(self@.stack) * size_of::<U256>() + opt_len(self@.push_stack) * size_of::<U256>()
            + opt_len(self@.memory) + self@.returndata.len() + opt_len(self@.immediate_bytes) + (
        if self.storage_change is Some {
            size_of::<StorageChange>()
        } else {
            0
        }) + (if self.decoded is Some {
            size_of::<DecodedTraceStep>()
        } else {
            0
        })
    }

    /// Returns true if the status code is an error or revert, See [InstructionResult::Revert]
    pub fn is_error(&self) -> (r: bool)
        ensures
            r == self.spec_is_error(),
    {
        match self.status {
            Some(status) => !status.is_ok(),
            None => false,
        }
    }

    /// Returns the error message if it is an erroneous result.
    pub fn as_error(&self) -> (r: Option<String>)
        ensures
            match r {
                Some(text) => self.error_text() == Some(text@),
                None => self.error_text() is None,
            },
    {
        match self.status {
            Some(status) => if !status.is_ok() {
                let mut text: String = "Some(".to_owned();
                text.append(status.name());
                text.append(")");
                Some(text)
            } else {
                None
            },
            None => None,
        }
    }

    /// Returns the decoded data of the step. Starts it as an empty line if there is none yet.
    pub fn decoded_mut(&mut self) -> (r: &mut DecodedTraceStep)
        ensures
            match old(self).decoded {
                Some(decoded) => *r == *decoded,
                None => r@ == DecodedTraceStepView::Line(Seq::empty()),
            },
            *final(self) == (StepDetail { decoded: Some(Box::new(*final(r))), ..*old(self) }),
    {
        let decoded: &mut Box<DecodedTraceStep> = self.decoded.get_or_insert(
            Box::new(DecodedTraceStep::Line(String::new())),
        );
        &mut **decoded
    }

    /// Returns the heap bytes the record owns: the snapshots and the boxed fields. A total past
    /// `usize::MAX` counts as `usize::MAX`.
    pub fn owned_bytes(&self) -> (r: usize)
        ensures
            r == saturated(self.owned_size()),
    {
        let word: usize = core::mem::size_of::<U256>();
        let stack: usize = match &self.stack {
            Some(stack) => saturating_product(stack.len(), word),
            None => 0,
        };
        let push_stack: usize = match &self.push_stack {
            Some(stack) => saturating_product(stack.len(), word),
            None => 0,
        };
        let memory: usize = match &self.memory {
            Some(memory) => memory.len(),
            None => 0,
        };
        let returndata: usize = bytes_as_slice(&self.returndata).len();
        let immediate: usize = match &self.immediate_bytes {
            Some(bytes) => bytes_as_slice(bytes).len(),
            None => 0,
        };
        let storage_change: usize = match &self.storage_change {
            Some(_) => core::mem::size_of::<StorageChange>(),
            None => 0,
        };
        let decoded: usize = match &self.decoded {
            Some(_) => core::mem::size_of::<DecodedTraceStep>(),
            None => 0,
        };
        stack.saturating_add(push_stack).saturating_add(memory).saturating_add(
            returndata,
        ).saturating_add(immediate).saturating_add(storage_change).saturating_add(decoded)
    }
}

} // verus!
