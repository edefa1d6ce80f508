//! What kinds of call, outcomes, opcodes, records, memory and logs say of themselves.

use alloy_primitives::Bytes;
use vstd::prelude::*;

use crate::decoded::{
    DecodedCallData, DecodedCallLog, DecodedCallTrace, DecodedInternalCall, DecodedTraceStep,
};
use crate::detail::{RecordedMemory, StepDetail};
use crate::kind::{CallKind, CallScheme, CreateScheme};
use crate::log::{CallLog, Log};
use crate::opcode::{opcode_known, opcode_name, OpCode};
use crate::parity::{ActionType, CallType, CreationMethod};
use crate::primitives::{bytes_seq, hex_chars, log_payload, log_topics};
use crate::status::InstructionResult;
use crate::store::StepStoreError;

verus! {

/// Each kind of call has a name of its own. Creations are `CREATE` and `CREATE2`, and delegates are
/// `DELEGATECALL` and `CALLCODE`.
pub proof fn kinds_are_told_apart(
    kind: CallKind,
    name: &'static str,
    create: bool,
    delegate: bool,
    static_call: bool,
    auth_call: bool,
    default: CallKind,
)
    requires
        call_ensures(CallKind::to_str, (kind,), name),
        call_ensures(CallKind::is_any_create, (&kind,), create),
        call_ensures(CallKind::is_delegate, (&kind,), delegate),
        call_ensures(CallKind::is_static_call, (&kind,), static_call),
        call_ensures(CallKind::is_auth_call, (&kind,), auth_call),
        call_ensures(<CallKind as Default>::default, (), default),
    ensures
        name@ == match kind {
            CallKind::Call => "CALL"@,
            CallKind::StaticCall => "STATICCALL"@,
            CallKind::CallCode => "CALLCODE"@,
            CallKind::DelegateCall => "DELEGATECALL"@,
            CallKind::AuthCall => "AUTHCALL"@,
            CallKind::Create => "CREATE"@,
            CallKind::Create2 => "CREATE2"@,
        },
        create <==> kind == CallKind::Create || kind == CallKind::Create2,
        delegate <==> kind == CallKind::DelegateCall || kind == CallKind::CallCode,
        static_call <==> kind == CallKind::StaticCall,
        auth_call <==> kind == CallKind::AuthCall,
        default == CallKind::Call,
{
}

/// A kind of call becomes the parity types that bear its name; what it has no name among becomes
/// the absence of one.
pub proof fn kinds_become_parity_types(
    kind: CallKind,
    call_type: CallType,
    method: CreationMethod,
    action: ActionType,
)
    requires
        call_ensures(<CallType as From<CallKind>>::from, (kind,), call_type),
        call_ensures(<CreationMethod as From<CallKind>>::from, (kind,), method),
        call_ensures(<ActionType as From<CallKind>>::from, (kind,), action),
    ensures
        (call_type, method, action) == match kind {
            CallKind::Call => (CallType::Call, CreationMethod::NotACreation, ActionType::Call),
            CallKind::StaticCall => (
                CallType::StaticCall,
                CreationMethod::NotACreation,
                ActionType::Call,
            ),
            CallKind::CallCode => (
                CallType::CallCode,
                CreationMethod::NotACreation,
                ActionType::Call,
            ),
            CallKind::DelegateCall => (
                CallType::DelegateCall,
                CreationMethod::NotACreation,
                ActionType::Call,
            ),
            CallKind::AuthCall => (
                CallType::AuthCall,
                CreationMethod::NotACreation,
                ActionType::Call,
            ),
            CallKind::Create => (CallType::NotACall, CreationMethod::Create, ActionType::Create),
            CallKind::Create2 => (CallType::NotACall, CreationMethod::Create2, ActionType::Create),
        },
{
}

/// A scheme becomes the kind that bears its name; a custom creation becomes a plain one.
pub proof fn schemes_become_kinds(
    call: CallScheme,
    create: CreateScheme,
    call_kind: CallKind,
    create_kind: CallKind,
)
    requires
        call_ensures(<CallKind as From<CallScheme>>::from, (call,), call_kind),
        call_ensures(<CallKind as From<CreateScheme>>::from, (create,), create_kind),
    ensures
        call_kind == match call {
            CallScheme::Call => CallKind::Call,
            CallScheme::StaticCall => CallKind::StaticCall,
            CallScheme::DelegateCall => CallKind::DelegateCall,
            CallScheme::CallCode => CallKind::CallCode,
        },
        create_kind == match create {
            CreateScheme::Create2 { .. } => CallKind::Create2,
            _ => CallKind::Create,
        },
{
}

/// Four outcomes are successes and six are reverts; all others are halts.
pub proof fn outcomes_are_told_apart(
    status: InstructionResult,
    ok: bool,
    revert: bool,
    halt: bool,
)
    requires
        call_ensures(InstructionResult::is_ok, (status,), ok),
        call_ensures(InstructionResult::is_revert, (status,), revert),
        call_ensures(InstructionResult::is_halt, (status,), halt),
    ensures
        ok <==> match status {
            InstructionResult::Stop
            | InstructionResult::Return
            | InstructionResult::SelfDestruct
            | InstructionResult::Suspend => true,
            _ => false,
        },
        revert <==> match status {
            InstructionResult::Revert
            | InstructionResult::CallTooDeep
            | InstructionResult::OutOfFunds
            | InstructionResult::CreateInitCodeStartingEF00
            | InstructionResult::InvalidEOFInitCode
            | InstructionResult::InvalidExtDelegateCallTarget => true,
            _ => false,
        },
        halt <==> !ok && !revert,
{
}

/// An opcode is its byte, with what the opcode table says of the byte. In a struct log it has the
/// name of the table where the table knows it, and `Unknown` elsewhere.
pub proof fn opcodes_are_their_byte(
    byte: u8,
    op: OpCode,
    got: u8,
    known: bool,
    name: &'static str,
    log_name: &'static str,
)
    requires
        call_ensures(OpCode::new_or_unknown, (byte,), op),
        call_ensures(OpCode::get, (op,), got),
        call_ensures(OpCode::is_valid, (&op,), known),
        call_ensures(OpCode::as_str, (op,), name),
        call_ensures(OpCode::log_name, (op,), log_name),
    ensures
        op.0 == byte,
        got == byte,
        known == opcode_known(byte),
        name@ == opcode_name(byte),
        log_name@ == if known {
            name@
        } else {
            "Unknown"@
        },
{
}

/// The name of an opcode in a struct log depends on what the opcode table says of it alone.
pub proof fn unknown_opcodes_are_called_unknown(
    known: bool,
    name: &'static str,
    log_name: &'static str,
)
    requires
        call_ensures(crate::opcode::name_in_log, (known, name), log_name),
    ensures
        known ==> log_name@ == name@,
        !known ==> log_name@ == "Unknown"@,
{
}

/// Each fault of columns has a text of its own.
pub proof fn faults_have_texts(error: StepStoreError, text: &'static str)
    requires
        call_ensures(StepStoreError::message, (error,), text),
    ensures
        text@ == match error {
            StepStoreError::OpsLength => "`pcs` and `ops` differ in length"@,
            StepStoreError::DetailStepsLength => "`detail_steps` and `details` differ in length"@,
            StepStoreError::DetailStepsOrder =>
                "`detail_steps` must be strictly increasing indices into the base track"@,
        },
{
}

/// A step is in error where it has a status that is none of the four successes, so also where it
/// reverted. The text of the error is the name of the status, as the debug form of an option shows
/// it.
pub proof fn failed_steps_name_their_status(
    detail: StepDetail,
    error: bool,
    text: Option<String>,
    name: &'static str,
)
    requires
        call_ensures(StepDetail::is_error, (&detail,), error),
        call_ensures(StepDetail::as_error, (&detail,), text),
        detail.status matches Some(status) ==> call_ensures(
            InstructionResult::name,
            (status,),
            name,
        ),
    ensures
        error <==> match detail.status {
            None
            | Some(InstructionResult::Stop)
            | Some(InstructionResult::Return)
            | Some(InstructionResult::SelfDestruct)
            | Some(InstructionResult::Suspend) => false,
            Some(_) => true,
        },
        text is Some <==> error,
        text matches Some(text) ==> text@ == "Some("@ + name@ + ")"@,
{
}

/// The decoded data of a step is what was there, or an empty line where there was none, and
/// afterwards what was written to it. Everything else of the record is as it was.
pub proof fn decoded_steps_are_kept(detail: &mut StepDetail, decoded: &mut DecodedTraceStep)
    requires
        call_ensures(StepDetail::decoded_mut, (detail,), decoded),
    ensures
        match old(detail).decoded {
            Some(before) => *old(decoded) == *before,
            None => match *old(decoded) {
                DecodedTraceStep::Line(line) => line@.len() == 0,
                DecodedTraceStep::InternalCall(_, _) => false,
            },
        },
        final(detail).decoded == Some(Box::new(*final(decoded))),
        *final(detail) == (StepDetail { decoded: final(detail).decoded, ..*old(detail) }),
{
}

/// Two records with the same contents agree in every part, buffers and stacks by what they hold.
pub proof fn record_contents_are_all_parts(a: StepDetail, b: StepDetail)
    requires
        a@ == b@,
    ensures
        a.stack is Some <==> b.stack is Some,
        a.stack is Some ==> a.stack->0@ == b.stack->0@,
        a.push_stack is Some <==> b.push_stack is Some,
        a.push_stack is Some ==> a.push_stack->0@ == b.push_stack->0@,
        a.memory is Some <==> b.memory is Some,
        match (a.memory, b.memory) {
            (Some(x), Some(y)) => bytes_seq(x.0) == bytes_seq(y.0),
            _ => true,
        },
        bytes_seq(a.returndata) == bytes_seq(b.returndata),
        a.gas_remaining == b.gas_remaining,
        a.gas_refund_counter == b.gas_refund_counter,
        a.gas_used == b.gas_used,
        a.gas_cost == b.gas_cost,
        a.storage_change == b.storage_change,
        a.status == b.status,
        a.immediate_bytes is Some <==> b.immediate_bytes is Some,
        a.immediate_bytes is Some ==> bytes_seq(a.immediate_bytes->0) == bytes_seq(
            b.immediate_bytes->0,
        ),
        a.decoded is Some <==> b.decoded is Some,
        a.decoded is Some ==> a.decoded->0@ == b.decoded->0@,
{
}

/// Copied words are the words.
pub proof fn copied_words_are_the_words(
    words: &[alloy_primitives::U256],
    copy: Vec<alloy_primitives::U256>,
)
    requires
        call_ensures(crate::detail::words_to_vec, (words,), copy),
    ensures
        copy@.len() == words@.len(),
        forall|i: int| 0 <= i < words@.len() ==> copy@[i] == words@[i],
{
}

/// A copy of a record has the same contents, and a blank record holds nothing.
pub proof fn records_are_copied(detail: StepDetail, copy: StepDetail, blank: StepDetail)
    requires
        call_ensures(<StepDetail as Clone>::clone, (&detail,), copy),
        call_ensures(<StepDetail as Default>::default, (), blank),
    ensures
        copy@ == detail@,
        blank.stack is None && blank.push_stack is None && blank.memory is None,
        bytes_seq(blank.returndata).len() == 0,
        blank.gas_remaining == 0 && blank.gas_refund_counter == 0,
        blank.gas_used == 0 && blank.gas_cost == 0,
        blank.storage_change is None && blank.status is None,
        blank.immediate_bytes is None && blank.decoded is None,
{
}

/// Recorded memory is the bytes that were captured, under whichever form they are asked for.
pub proof fn recorded_memory_is_what_was_captured<'a>(
    mem: &'a [u8],
    memory: RecordedMemory,
    bytes: &'a Bytes,
    owned: Bytes,
    len: usize,
    empty: bool,
    copy: RecordedMemory,
    blank: RecordedMemory,
)
    requires
        call_ensures(RecordedMemory::new, (mem,), memory),
        call_ensures(RecordedMemory::as_bytes, (&memory,), bytes),
        call_ensures(RecordedMemory::into_bytes, (memory,), owned),
        call_ensures(RecordedMemory::len, (&memory,), len),
        call_ensures(RecordedMemory::is_empty, (&memory,), empty),
        call_ensures(<RecordedMemory as Clone>::clone, (&memory,), copy),
        call_ensures(<RecordedMemory as Default>::default, (), blank),
    ensures
        bytes_seq(memory.0) == mem@,
        bytes_seq(*bytes) == mem@,
        bytes_seq(owned) == mem@,
        len == mem@.len(),
        empty <==> mem@.len() == 0,
        bytes_seq(copy.0) == mem@,
        bytes_seq(blank.0).len() == 0,
{
}

/// The value of a lower-case hexadecimal digit, and nothing for any other character.
pub open spec fn digit_value(c: char) -> Option<int> {
    if '0' <= c <= '9' {
        Some(c as int - '0' as int)
    } else if 'a' <= c <= 'f' {
        Some(c as int - 'a' as int + 10)
    } else {
        None
    }
}

/// `text` is two lower-case hexadecimal digits for each of the bytes, the high one first.
pub open spec fn spells(text: Seq<char>, data: Seq<u8>) -> bool {
    &&& text.len() == 2 * data.len()
    &&& forall|b: int|
        0 <= b < data.len() ==> {
            let high = digit_value(text[2 * b]);
            let low = digit_value(text[2 * b + 1]);
            &&& high is Some
            &&& low is Some
            &&& 16 * high->0 + low->0 == #[trigger] data[b]
        }
}

proof fn lemma_hex_spells(data: Seq<u8>)
    ensures
        spells(hex_chars(data), data),
{
    let text = hex_chars(data);
    assert forall|b: int| 0 <= b < data.len() implies {
        let high = digit_value(text[2 * b]);
        let low = digit_value(text[2 * b + 1]);
        &&& high is Some
        &&& low is Some
        &&& 16 * high->0 + low->0 == #[trigger] data[b]
    } by {
        let x = data[b] as int;
        assert((2 * b) / 2 == b && (2 * b) % 2 == 0);
        assert((2 * b + 1) / 2 == b && (2 * b + 1) % 2 == 1);
        assert(0 <= x / 16 < 16 && 0 <= x % 16 < 16);
        lemma_digit(x / 16);
        lemma_digit(x % 16);
    }
}

proof fn lemma_digit(n: int)
    requires
        0 <= n < 16,
    ensures
        digit_value(crate::primitives::hex_digit(n)) == Some(n),
{
}

/// The chunks of a memory spell its bytes in order, thirty-two to a chunk, the last one filled up
/// with zeros; a memory of whole chunks needs no filling, and an empty one has no chunks.
pub proof fn chunks_spell_the_memory(memory: RecordedMemory, chunks: Vec<String>)
    requires
        call_ensures(RecordedMemory::memory_chunks, (&memory,), chunks),
    ensures
        32 * chunks@.len() >= bytes_seq(memory.0).len(),
        32 * chunks@.len() < bytes_seq(memory.0).len() + 32,
        forall|i: int|
            0 <= i < chunks@.len() ==> spells(
                (#[trigger] chunks@[i])@,
                Seq::new(
                    32,
                    |j: int|
                        if 32 * i + j < bytes_seq(memory.0).len() {
                            bytes_seq(memory.0)[32 * i + j]
                        } else {
                            0u8
                        },
                ),
            ),
{
    assert forall|i: int| 0 <= i < chunks@.len() implies spells(
        (#[trigger] chunks@[i])@,
        Seq::new(
            32,
            |j: int|
                if 32 * i + j < bytes_seq(memory.0).len() {
                    bytes_seq(memory.0)[32 * i + j]
                } else {
                    0u8
                },
        ),
    ) by {
        let mem = bytes_seq(memory.0);
        let part = Seq::new(
            32,
            |j: int|
                if 32 * i + j < mem.len() {
                    mem[32 * i + j]
                } else {
                    0u8
                },
        );
        assert(crate::detail::chunk(memory@, i) =~= part);
        lemma_hex_spells(part);
    }
}

/// A slice of bytes is cut into the same chunks as a memory that captured it.
pub proof fn slices_are_cut_as_memory_is(
    mem: &[u8],
    memory: RecordedMemory,
    chunks: Vec<String>,
    converted: Vec<String>,
)
    requires
        call_ensures(RecordedMemory::new, (mem,), memory),
        call_ensures(RecordedMemory::memory_chunks, (&memory,), chunks),
        call_ensures(crate::detail::convert_memory, (mem,), converted),
    ensures
        converted@.len() == chunks@.len(),
        forall|i: int|
            0 <= i < converted@.len() ==> (#[trigger] converted@[i])@ == chunks@[i]@,
{
}

/// A log becomes one with the same emitter and data, and with nothing else set. Setting its
/// position or its index leaves the rest.
pub proof fn logs_keep_what_is_not_set(
    log: Log,
    call_log: CallLog,
    position: u64,
    index: u64,
    placed: CallLog,
    indexed: CallLog,
)
    requires
        call_ensures(<CallLog as From<Log>>::from, (log,), call_log),
        call_ensures(CallLog::with_position, (call_log, position), placed),
        call_ensures(CallLog::with_index, (placed, index), indexed),
    ensures
        call_log == (CallLog {
            address: log.address,
            raw_log: log.data,
            decoded: None,
            position: 0,
            index: 0,
        }),
        placed == (CallLog {
            address: log.address,
            raw_log: log.data,
            decoded: None,
            position,
            index: 0,
        }),
        indexed == (CallLog {
            address: log.address,
            raw_log: log.data,
            decoded: None,
            position,
            index,
        }),
{
}

/// Setting the position or the index of any log sets it and nothing else.
pub proof fn set_logs_differ_in_what_is_set(
    log: CallLog,
    position: u64,
    placed: CallLog,
    index: u64,
    indexed: CallLog,
)
    requires
        call_ensures(CallLog::with_position, (log, position), placed),
        call_ensures(CallLog::with_index, (log, index), indexed),
    ensures
        placed == (CallLog {
            address: log.address,
            raw_log: log.raw_log,
            decoded: log.decoded,
            position,
            index: log.index,
        }),
        indexed == (CallLog {
            address: log.address,
            raw_log: log.raw_log,
            decoded: log.decoded,
            position: log.position,
            index,
        }),
{
}

/// The decoded data of a log is what was there, or blank where there was none, and afterwards what
/// was written to it. Everything else of the log is as it was.
pub proof fn decoded_logs_are_kept(log: &mut CallLog, decoded: &mut DecodedCallLog)
    requires
        call_ensures(CallLog::decoded, (log,), decoded),
    ensures
        *old(decoded) == match old(log).decoded {
            Some(before) => *before,
            None => DecodedCallLog { name: None, params: None },
        },
        final(log).decoded == Some(Box::new(*final(decoded))),
        *final(log) == (CallLog { decoded: final(log).decoded, ..*old(log) }),
{
}

/// The name and the parameters of a log are those of its decoded data, and a copy of the log holds
/// the same.
pub proof fn decoded_parts_are_those_of_the_decoded_log<'a>(
    log: CallLog,
    name: Option<&'a str>,
    params: Option<&'a [(String, String)]>,
    copy: CallLog,
)
    requires
        call_ensures(CallLog::decoded_name, (&log,), name),
        call_ensures(CallLog::decoded_params, (&log,), params),
        call_ensures(<CallLog as Clone>::clone, (&log,), copy),
    ensures
        match log.decoded {
            Some(decoded) => {
                &&& match decoded.name {
                    Some(text) => name is Some && name->0@ == text@,
                    None => name is None,
                }
                &&& match decoded.params {
                    Some(list) => params is Some && params->0@ == list@,
                    None => params is None,
                }
            },
            None => name is None && params is None,
        },
        copy.address == log.address,
        log_topics(copy.raw_log) == log_topics(log.raw_log),
        log_payload(copy.raw_log) == log_payload(log.raw_log),
        copy.decoded is Some <==> log.decoded is Some,
        copy.decoded matches Some(decoded) ==> decoded@ == log.decoded->0@,
        copy.position == log.position,
        copy.index == log.index,
{
}

/// `a` and `b` are both missing, or both there with the same text.
pub open spec fn same_text(a: Option<String>, b: Option<String>) -> bool {
    &&& a is Some <==> b is Some
    &&& a is Some ==> a->0@ == b->0@
}

/// `a` and `b` are the same texts in the same order.
pub open spec fn same_texts(a: Seq<String>, b: Seq<String>) -> bool {
    &&& a.len() == b.len()
    &&& forall|i: int| 0 <= i < a.len() ==> (#[trigger] a[i])@ == b[i]@
}

/// Two decoded logs with the same contents agree in every text.
pub proof fn decoded_log_contents_are_all_texts(a: DecodedCallLog, b: DecodedCallLog)
    requires
        a@ == b@,
    ensures
        same_text(a.name, b.name),
        a.params is Some <==> b.params is Some,
        a.params is Some ==> {
            &&& a.params->0@.len() == b.params->0@.len()
            &&& forall|i: int|
                0 <= i < a.params->0@.len() ==> (#[trigger] a.params->0@[i]).0@
                    == b.params->0@[i].0@ && a.params->0@[i].1@ == b.params->0@[i].1@
        },
{
    if a.params is Some && b.params is Some {
        let x = a.params->0@;
        let y = b.params->0@;
        assert(crate::decoded::pairs(x) == crate::decoded::pairs(y));
        assert(crate::decoded::pairs(x).len() == x.len());
        assert(crate::decoded::pairs(y).len() == y.len());
        assert forall|i: int| 0 <= i < x.len() implies (#[trigger] x[i]).0@ == y[i].0@ && x[i].1@
            == y[i].1@ by {
            assert(crate::decoded::pairs(x)[i] == crate::decoded::pairs(y)[i]);
        }
    }
}

proof fn lemma_same_texts(a: Seq<String>, b: Seq<String>)
    requires
        crate::decoded::strings(a) == crate::decoded::strings(b),
    ensures
        same_texts(a, b),
{
    assert(crate::decoded::strings(a).len() == a.len());
    assert(crate::decoded::strings(b).len() == b.len());
    assert forall|i: int| 0 <= i < a.len() implies (#[trigger] a[i])@ == b[i]@ by {
        assert(crate::decoded::strings(a)[i] == crate::decoded::strings(b)[i]);
    }
}

/// Two decoded calls with the same contents agree in every text.
pub proof fn decoded_call_contents_are_all_texts(
    a: DecodedCallTrace,
    b: DecodedCallTrace,
    c: DecodedCallData,
    d: DecodedCallData,
)
    requires
        a@ == b@,
        c@ == d@,
    ensures
        same_text(a.label, b.label),
        same_text(a.return_data, b.return_data),
        a.call_data is Some <==> b.call_data is Some,
        a.call_data is Some ==> a.call_data->0@ == b.call_data->0@,
        c.signature@ == d.signature@,
        same_texts(c.args@, d.args@),
{
    lemma_same_texts(c.args@, d.args@);
}

/// Two decoded steps with the same contents agree in every text and in where the call ends.
pub proof fn decoded_step_contents_are_all_texts(
    a: DecodedTraceStep,
    b: DecodedTraceStep,
    c: DecodedInternalCall,
    d: DecodedInternalCall,
)
    requires
        a@ == b@,
        c@ == d@,
    ensures
        match (a, b) {
            (
                DecodedTraceStep::InternalCall(x, i),
                DecodedTraceStep::InternalCall(y, j),
            ) => x@ == y@ && i == j,
            (DecodedTraceStep::Line(x), DecodedTraceStep::Line(y)) => x@ == y@,
            _ => false,
        },
        c.func_name@ == d.func_name@,
        c.args is Some <==> d.args is Some,
        c.args is Some ==> same_texts(c.args->0@, d.args->0@),
        c.return_data is Some <==> d.return_data is Some,
        c.return_data is Some ==> same_texts(c.return_data->0@, d.return_data->0@),
{
    if c.args is Some && d.args is Some {
        lemma_same_texts(c.args->0@, d.args->0@);
    }
    if c.return_data is Some && d.return_data is Some {
        lemma_same_texts(c.return_data->0@, d.return_data->0@);
    }
}

/// Copies of decoded data have the same contents.
pub proof fn decoded_data_is_copied(
    a: DecodedCallTrace,
    a_copy: DecodedCallTrace,
    b: DecodedCallData,
    b_copy: DecodedCallData,
    c: DecodedCallLog,
    c_copy: DecodedCallLog,
    d: DecodedTraceStep,
    d_copy: DecodedTraceStep,
    e: DecodedInternalCall,
    e_copy: DecodedInternalCall,
)
    requires
        call_ensures(<DecodedCallTrace as Clone>::clone, (&a,), a_copy),
        call_ensures(<DecodedCallData as Clone>::clone, (&b,), b_copy),
        call_ensures(<DecodedCallLog as Clone>::clone, (&c,), c_copy),
        call_ensures(<DecodedTraceStep as Clone>::clone, (&d,), d_copy),
        call_ensures(<DecodedInternalCall as Clone>::clone, (&e,), e_copy),
    ensures
        a_copy@ == a@,
        b_copy@ == b@,
        c_copy@ == c@,
        d_copy@ == d@,
        e_copy@ == e@,
{
}

} // verus!
