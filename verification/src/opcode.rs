//! Opcodes, and the calls into `revm`'s opcode table.

use vstd::prelude::*;

verus! {

/// Halts execution.
pub const STOP: u8 = 0x00;

/// Creates a contract.
pub const CREATE: u8 = 0xF0;

/// Calls an account.
pub const CALL: u8 = 0xF1;

/// Calls an account's code in the caller's storage.
pub const CALLCODE: u8 = 0xF2;

/// Calls an account's code in the caller's storage, with the caller's sender and value.
pub const DELEGATECALL: u8 = 0xF4;

/// Creates a contract at an address that depends on a salt.
pub const CREATE2: u8 = 0xF5;

/// Calls an account without letting it change state.
pub const STATICCALL: u8 = 0xFA;

/// Whether the opcode table has an entry for a byte.
pub uninterp spec fn opcode_known(op: u8) -> bool;

/// The name that the opcode table gives a byte.
pub uninterp spec fn opcode_name(op: u8) -> Seq<char>;

/// `OpCode::is_valid` of `revm` says whether the opcode table has an entry for the byte.
#[verifier::external_body]
fn table_is_valid(op: u8) -> (r: bool)
    ensures
        r == opcode_known(op),
{
    revm::bytecode::opcode::OpCode::new_or_unknown(op).is_valid()
}

/// `OpCode::as_str` of `revm` gives the name that the opcode table has for the byte.
#[verifier::external_body]
fn table_as_str(op: u8) -> (r: &'static str)
    ensures
        r@ == opcode_name(op),
{
    revm::bytecode::opcode::OpCode::new_or_unknown(op).as_str()
}

/// The byte of an opcode, whether or not the opcode table knows it.
#[derive(Clone, Copy, Debug, PartialEq, Eq, Structural)]
pub struct OpCode(pub u8);

impl OpCode {
    /// Makes an opcode of any byte.
    pub fn new_or_unknown(opcode: u8) -> (r: Self)
        ensures
            r == OpCode(opcode),
    {
        OpCode(opcode)
    }

    /// Returns the opcode as a byte.
    pub fn get(self) -> (r: u8)
        ensures
            r == self.0,
    {
        self.0
    }

    /// Returns true if the opcode table knows the opcode.
    pub fn is_valid(&self) -> (r: bool)
        ensures
            r == opcode_known(self.0),
    {
        table_is_valid(self.0)
    }

    /// Returns the name of the opcode in the opcode table.
    pub fn as_str(self) -> (r: &'static str)
        ensures
            r@ == opcode_name(self.0),
    {
        table_as_str(self.0)
    }

    /// Returns the name that a struct log gives the opcode.
    pub fn log_name(self) -> (r: &'static str)
        ensures
            r@ == spec_name_in_log(opcode_known(self.0), opcode_name(self.0)),
    {
        name_in_log(self.is_valid(), self.as_str())
    }
}

/// The name that a struct log gives an opcode, of what the opcode table says of it.
pub open spec fn spec_name_in_log(known: bool, name: Seq<char>) -> Seq<char> {
    if known {
        name
    } else {
        "Unknown"@
    }
}

/// Returns the name that a struct log gives an opcode: its name in the opcode table, or `Unknown`
/// where the table does not know it.
pub fn name_in_log(known: bool, name: &'static str) -> (r: &'static str)
    ensures
        r@ == spec_name_in_log(known, name@),
{
    if known {
        name
    } else {
        "Unknown"
    }
}

/// `op` opens a frame: `CALL`, `CALLCODE`, `DELEGATECALL`, `STATICCALL`, `CREATE` or `CREATE2`.
pub open spec fn call_like(op: u8) -> bool {
    ||| op == CALL
    ||| op == CALLCODE
    ||| op == DELEGATECALL
    ||| op == STATICCALL
    ||| op == CREATE
    ||| op == CREATE2
}

/// Returns true if `op` is a call-like operation: `CALL`, `CALLCODE`, `DELEGATECALL`,
/// `STATICCALL`, `CREATE` or `CREATE2`.
pub fn is_call_like_op(op: OpCode) -> (r: bool)
    ensures
        r == call_like(op.0),
{
    matches!(op.get(), CALL | DELEGATECALL | STATICCALL | CREATE | CALLCODE | CREATE2)
}

} // verus!
