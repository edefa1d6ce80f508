//! The types of `alloy_primitives` that traces carry, and the calls into that crate.
//!
//! Each type is opaque: the specifications speak of its contents through the functions declared
//! here, and of nothing else about it.

use alloy_primitives::{Address, Bytes, FixedBytes, LogData, Uint, B256, U256};
use vstd::prelude::*;

verus! {

/// `alloy_primitives::Address`: twenty bytes, see [`address_bytes`].
#[verifier::external_type_specification]
#[verifier::external_body]
pub struct ExAddress(Address);

/// `alloy_primitives::Bytes`: a shared byte buffer, see [`bytes_seq`].
#[verifier::external_type_specification]
#[verifier::external_body]
pub struct ExBytes(Bytes);

/// `alloy_primitives::FixedBytes`: a byte array, carried as a log topic or a selector.
#[verifier::external_type_specification]
#[verifier::external_body]
pub struct ExFixedBytes<const N: usize>(FixedBytes<N>);

/// `alloy_primitives::Uint`, of which `U256` is an instance: see [`u256_limbs`].
#[verifier::external_type_specification]
#[verifier::external_body]
pub struct ExUint<const BITS: usize, const LIMBS: usize>(Uint<BITS, LIMBS>);

/// `alloy_primitives::LogData`: the topics and the data of a log, see [`log_topics`] and
/// [`log_payload`].
#[verifier::external_type_specification]
#[verifier::external_body]
pub struct ExLogData(LogData);

/// The bytes that a buffer holds.
pub uninterp spec fn bytes_seq(b: Bytes) -> Seq<u8>;

/// The twenty bytes of an address.
pub uninterp spec fn address_bytes(a: Address) -> Seq<u8>;

/// The four bytes of a selector.
pub uninterp spec fn selector_bytes(s: FixedBytes<4>) -> Seq<u8>;

/// The four 64-bit limbs of a word, least significant first.
pub uninterp spec fn u256_limbs(v: U256) -> Seq<u64>;

/// The topics of a log, in order.
pub uninterp spec fn log_topics(l: LogData) -> Seq<B256>;

/// The data bytes of a log.
pub uninterp spec fn log_payload(l: LogData) -> Seq<u8>;

/// Two buffers hold the same bytes.
pub open spec fn same_bytes(a: Bytes, b: Bytes) -> bool {
    bytes_seq(a) == bytes_seq(b)
}

/// `v` is the word with the value `x`.
pub open spec fn is_word(v: U256, x: u64) -> bool {
    u256_limbs(v) == seq![x, 0u64, 0u64, 0u64]
}

/// `a` is the zero address.
pub open spec fn is_zero_address(a: Address) -> bool {
    address_bytes(a) == Seq::new(20, |i: int| 0u8)
}

/// `a` is the address in `o`, or the zero address where there is none.
pub open spec fn is_address_or_zero(a: Address, o: Option<Address>) -> bool {
    match o {
        Some(b) => a == b,
        None => is_zero_address(a),
    }
}

/// `v` is the word in `o`, or zero where there is none.
pub open spec fn is_word_or_zero(v: U256, o: Option<U256>) -> bool {
    match o {
        Some(w) => v == w,
        None => is_word(v, 0),
    }
}

/// The lower-case hexadecimal digit of `n`, for `n` below sixteen.
pub open spec fn hex_digit(n: int) -> char {
    if n < 10 {
        (0x30 + n) as char
    } else {
        (0x61 + n - 10) as char
    }
}

/// The lower-case hexadecimal encoding of `data`: two digits for each byte, the high one first.
pub open spec fn hex_chars(data: Seq<u8>) -> Seq<char> {
    Seq::new(
        2 * data.len(),
        |i: int|
            if i % 2 == 0 {
                hex_digit(data[i / 2] as int / 16)
            } else {
                hex_digit(data[i / 2] as int % 16)
            },
    )
}

/// `Bytes::clone` gives a buffer with the same bytes.
pub assume_specification[ <Bytes as Clone>::clone ](b: &Bytes) -> (r: Bytes)
    ensures
        bytes_seq(r) == bytes_seq(*b),
;

/// `LogData::clone` gives a log with the same topics and the same data.
pub assume_specification[ <LogData as Clone>::clone ](l: &LogData) -> (r: LogData)
    ensures
        log_topics(r) == log_topics(*l),
        log_payload(r) == log_payload(*l),
;

/// `Bytes::new` gives an empty buffer.
pub assume_specification[ Bytes::new ]() -> (r: Bytes)
    ensures
        bytes_seq(r) == Seq::<u8>::empty(),
;

/// `Bytes::copy_from_slice` gives a buffer with the bytes of the slice.
pub assume_specification[ Bytes::copy_from_slice ](data: &[u8]) -> (r: Bytes)
    ensures
        bytes_seq(r) == data@,
;

/// `Bytes::as_ref` gives the bytes of the buffer as a slice.
#[verifier::external_body]
pub(crate) fn bytes_as_slice(b: &Bytes) -> (r: &[u8])
    ensures
        r@ == bytes_seq(*b),
{
    b.as_ref()
}

/// `FixedBytes::from_slice` gives an array of the bytes of a slice whose length fits.
#[verifier::external_body]
pub(crate) fn selector_from_slice(src: &[u8]) -> (r: FixedBytes<4>)
    requires
        src@.len() == 4,
    ensures
        selector_bytes(r) == src@,
{
    FixedBytes::from_slice(src)
}

/// `Address::default` is the zero address.
#[verifier::external_body]
pub(crate) fn address_zero() -> (r: Address)
    ensures
        address_bytes(r) == Seq::new(20, |i: int| 0u8),
{
    Address::default()
}

/// `U256::default` is zero.
#[verifier::external_body]
pub(crate) fn u256_zero() -> (r: U256)
    ensures
        u256_limbs(r) == seq![0u64, 0u64, 0u64, 0u64],
{
    U256::default()
}

/// `U256::from` gives the word with the value of the argument.
#[verifier::external_body]
pub(crate) fn u256_from_u64(x: u64) -> (r: U256)
    ensures
        u256_limbs(r) == seq![x, 0u64, 0u64, 0u64],
{
    U256::from(x)
}

/// `LogData::topics` gives the topics of the log.
#[verifier::external_body]
pub(crate) fn topics_to_vec(l: &LogData) -> (r: Vec<B256>)
    ensures
        r@ == log_topics(*l),
{
    l.topics().to_vec()
}

/// The field `LogData::data`, of which a clone is handed out, holds the data of the log.
#[verifier::external_body]
pub(crate) fn payload_of(l: &LogData) -> (r: Bytes)
    ensures
        bytes_seq(r) == log_payload(*l),
{
    l.data.clone()
}

/// `alloy_primitives::hex::encode` gives the lower-case hexadecimal encoding of the bytes, without
/// a prefix.
#[verifier::external_body]
pub(crate) fn hex_encode(data: &[u8]) -> (r: String)
    ensures
        r@ == hex_chars(data@),
{
    alloy_primitives::hex::encode(data)
}

} // verus!
