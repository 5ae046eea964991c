//! Fixed-width codec for the persisted escrow record.
//!
//! The record is stored in the minimal profile: one flag byte (0 or 1)
//! followed by the amount as an unsigned 64-bit little-endian integer,
//! nine bytes in all. The layout is fixed at account creation and never
//! changes; `encode` writes exactly that region and `decode` is its
//! exact inverse.

use vstd::bytes::*;
use vstd::pervasive::VecAdditionalExecFns;
use vstd::prelude::*;

verus! {

/// Total width in bytes of an encoded record: one flag byte plus an
/// eight-byte little-endian amount.
pub const RECORD_WIDTH: usize = 9;

/// The single persisted entity: an escrow account's record.
///
/// A record is either uninitialized (`is_initialized == false`) or
/// initialized with the amount held in escrow. The transition between
/// the two is one-way and made by the engine, at most once per account.
#[derive(Clone, Copy, Debug, PartialEq, Eq, Structural)]
pub struct Escrow {
    pub is_initialized: bool,
    pub amount: u64,
}

/// Decoding failure: the buffer does not hold a record.
#[derive(Clone, Copy, Debug, PartialEq, Eq, Structural)]
pub enum DecodeError {
    /// The buffer is shorter than the fixed width, or the flag byte is
    /// neither 0 nor 1.
    Malformed,
}

/// Encoding failure: the destination cannot hold a record.
#[derive(Clone, Copy, Debug, PartialEq, Eq, Structural)]
pub enum EncodeError {
    /// The destination buffer is shorter than the fixed width.
    BufferTooSmall,
}

impl Escrow {
    /// Whether this record has been activated.
    pub fn is_initialized(&self) -> (r: bool)
        ensures
            r == self.is_initialized,
    {
        self.is_initialized
    }
}

/// The flag byte that stands for the record's state.
pub open spec fn spec_flag_byte(r: Escrow) -> u8 {
    if r.is_initialized {
        1u8
    } else {
        0u8
    }
}

/// The canonical byte representation of a record: flag byte, then the
/// amount in little-endian order.
pub open spec fn spec_encode(r: Escrow) -> Seq<u8> {
    seq![spec_flag_byte(r)] + spec_u64_to_le_bytes(r.amount)
}

/// Whether a buffer's leading bytes form a structurally valid record:
/// long enough for the fixed width, with an in-range flag byte.
pub open spec fn valid_record_bytes(bytes: Seq<u8>) -> bool {
    &&& bytes.len() >= RECORD_WIDTH
    &&& (bytes[0] == 0u8 || bytes[0] == 1u8)
}

/// The record held in a structurally valid buffer's leading bytes.
pub open spec fn spec_decode(bytes: Seq<u8>) -> Escrow
    recommends
        valid_record_bytes(bytes),
{
    Escrow {
        is_initialized: bytes[0] == 1u8,
        amount: spec_u64_from_le_bytes(bytes.subrange(1, RECORD_WIDTH as int)),
    }
}

/// Interprets a buffer's leading bytes as a record.
///
/// Fails with `Malformed` exactly when the buffer is shorter than the
/// fixed width or its flag byte is out of range; otherwise returns the
/// decoded record. The buffer is never mutated.
pub fn decode(bytes: &[u8]) -> (r: Result<Escrow, DecodeError>)
    ensures
        valid_record_bytes(bytes@) ==> r == Ok::<Escrow, DecodeError>(spec_decode(bytes@)),
        !valid_record_bytes(bytes@) ==> r == Err::<Escrow, DecodeError>(DecodeError::Malformed),
{
    if bytes.len() < RECORD_WIDTH {
        return Err(DecodeError::Malformed);
    }
    let flag: u8 = bytes[0];
    if flag > 1 {
        return Err(DecodeError::Malformed);
    }
    let amount_bytes: &[u8] = vstd::slice::slice_subrange(bytes, 1, RECORD_WIDTH);
    let amount: u64 = u64_from_le_bytes(amount_bytes);
    Ok(Escrow { is_initialized: flag == 1, amount })
}

/// Writes the record's canonical representation into the buffer's
/// leading fixed-width region, leaving any bytes beyond it as they were.
///
/// Fails with `BufferTooSmall` exactly when the buffer is shorter than
/// the fixed width, and then leaves the buffer untouched: either the
/// whole region is written or nothing is.
pub fn encode(r: &Escrow, buf: &mut Vec<u8>) -> (res: Result<(), EncodeError>)
    ensures
        final(buf).len() == old(buf).len(),
        old(buf).len() >= RECORD_WIDTH ==> {
            &&& res == Ok::<(), EncodeError>(())
            &&& final(buf)@ == spec_encode(*r) + old(buf)@.skip(RECORD_WIDTH as int)
        },
        old(buf).len() < RECORD_WIDTH ==> {
            &&& res == Err::<(), EncodeError>(EncodeError::BufferTooSmall)
            &&& final(buf)@ == old(buf)@
        },
{
    if buf.len() < RECORD_WIDTH {
        return Err(EncodeError::BufferTooSmall);
    }
    let flag: u8 = if r.is_initialized {
        1
    } else {
        0
    };
    buf.set(0, flag);
    let amount_bytes: Vec<u8> = u64_to_le_bytes(r.amount);
    let mut i: usize = 0;
    while i < 8
        invariant
            i <= 8,
            buf.len() == old(buf).len() >= RECORD_WIDTH,
            amount_bytes@ == spec_u64_to_le_bytes(r.amount),
            amount_bytes@.len() == 8,
            buf@[0] == spec_flag_byte(*r),
            forall|j: int| 1 <= j < 1 + i ==> buf@[j] == amount_bytes@[j - 1],
            forall|j: int| 1 + i <= j < buf@.len() ==> buf@[j] == old(buf)@[j],
        decreases 8 - i,
    {
        buf.set(i + 1, amount_bytes[i]);
        i = i + 1;
    }
    proof {
        assert(buf@ =~= spec_encode(*r) + old(buf)@.skip(RECORD_WIDTH as int));
    }
    Ok(())
}

/// Round-trip law: decoding the canonical encoding of any record gives
/// that record back, and the encoding is always structurally valid.
pub proof fn lemma_round_trip(r: Escrow)
    ensures
        valid_record_bytes(spec_encode(r)),
        spec_decode(spec_encode(r)) == r,
{
    lemma_auto_spec_u64_to_from_le_bytes();
    assert(spec_encode(r).subrange(1, RECORD_WIDTH as int) =~= spec_u64_to_le_bytes(r.amount));
}

/// Fixed-width law: the canonical encoding of every record, whatever its
/// field values, is exactly the declared fixed width.
pub proof fn lemma_encode_fixed_width(r: Escrow)
    ensures
        spec_encode(r).len() == RECORD_WIDTH,
{
    lemma_auto_spec_u64_to_from_le_bytes();
}

} // verus!
