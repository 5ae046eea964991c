//! The escrow transition engine.
//!
//! The engine is invoked with the caller-supplied account handles and an
//! opaque instruction payload. It decodes the target account's bytes
//! through the codec, validates that the record is still uninitialized,
//! applies the one legal transition (initialize), and writes the new
//! record back. Exactly one account's buffer is mutated, exactly once,
//! only on the success path; every failure returns a typed error and
//! leaves every buffer bit-identical to its pre-call value.

use crate::codec::{
    decode, encode, spec_decode, spec_encode, valid_record_bytes, DecodeError, EncodeError, Escrow,
    RECORD_WIDTH,
};
use vstd::bytes::{spec_u64_from_le_bytes, u64_from_le_bytes};
use vstd::prelude::*;

verus! {

/// The amount recorded when the instruction payload carries none.
pub const DEFAULT_AMOUNT: u64 = 1000;

/// A caller-supplied account handle: the account's mutable byte buffer
/// and the host's flag saying whether the account cryptographically
/// approved the current invocation.
#[derive(Debug)]
pub struct AccountInfo {
    pub data: Vec<u8>,
    pub is_signer: bool,
}

/// Every failure the engine surfaces. Each is returned to the caller as
/// a typed error with no partial mutation; none is retried internally.
#[derive(Clone, Copy, Debug, PartialEq, Eq, Structural)]
pub enum EscrowError {
    /// The transition was attempted on an already-initialized record.
    AlreadyInitialized,
    /// The stored bytes do not hold a valid record.
    Decode(DecodeError),
    /// The target account's allocated space is smaller than the fixed
    /// record width.
    Encode(EncodeError),
    /// Fewer account handles were supplied than the operation requires.
    MissingAccount,
    /// The required signer is absent.
    Unauthorized,
}

/// The amount an instruction payload carries: its first eight bytes as
/// an unsigned little-endian integer, or the protocol-fixed default when
/// the payload is shorter than that.
pub open spec fn spec_instruction_amount(payload: Seq<u8>) -> u64 {
    if payload.len() >= 8 {
        spec_u64_from_le_bytes(payload.subrange(0, 8))
    } else {
        DEFAULT_AMOUNT
    }
}

/// Reads the amount out of an instruction payload.
pub fn instruction_amount(payload: &[u8]) -> (a: u64)
    ensures
        a == spec_instruction_amount(payload@),
{
    if payload.len() >= 8 {
        let head: &[u8] = vstd::slice::slice_subrange(payload, 0, 8);
        u64_from_le_bytes(head)
    } else {
        DEFAULT_AMOUNT
    }
}

/// The record an initialize transition persists.
pub open spec fn spec_initialized_record(amount: u64) -> Escrow {
    Escrow { is_initialized: true, amount }
}

/// What `process_instruction` returns, as a function of the supplied
/// accounts alone: the checks, in the order the engine makes them.
pub open spec fn spec_process_outcome(accounts: Seq<AccountInfo>) -> Result<(), EscrowError> {
    if accounts.len() == 0 {
        Err(EscrowError::MissingAccount)
    } else if !valid_record_bytes(accounts[0].data@) {
        Err(EscrowError::Decode(DecodeError::Malformed))
    } else if spec_decode(accounts[0].data@).is_initialized {
        Err(EscrowError::AlreadyInitialized)
    } else {
        Ok(())
    }
}

/// Validates the accounts and payload, applies the initialize transition
/// to the first account, and persists the result through the codec.
///
/// The first account is the target. Success is owed exactly when at
/// least one account is supplied, its bytes decode, and the decoded
/// record is still uninitialized; the new record then holds the payload's
/// amount (or the protocol default) and the buffer's bytes beyond the
/// fixed width are untouched. On every failure the accounts, buffers
/// included, are left exactly as they were.
pub fn process_instruction(accounts: &mut Vec<AccountInfo>, instruction_data: &[u8]) -> (res: Result<
    (),
    EscrowError,
>)
    ensures
        res == spec_process_outcome(old(accounts)@),
        res is Err ==> final(accounts)@ == old(accounts)@,
        res is Ok ==> {
            &&& final(accounts)@.len() == old(accounts)@.len()
            &&& final(accounts)@[0].data@ == spec_encode(
                spec_initialized_record(spec_instruction_amount(instruction_data@)),
            ) + old(accounts)@[0].data@.skip(RECORD_WIDTH as int)
            &&& final(accounts)@[0].is_signer == old(accounts)@[0].is_signer
            &&& forall|i: int|
                1 <= i < old(accounts)@.len() ==> final(accounts)@[i] == old(accounts)@[i]
        },
{
    if accounts.len() == 0 {
        return Err(EscrowError::MissingAccount);
    }
    let record = match decode(accounts[0].data.as_slice()) {
        Ok(record) => record,
        Err(e) => {
            return Err(EscrowError::Decode(e));
        },
    };
    if record.is_initialized() {
        return Err(EscrowError::AlreadyInitialized);
    }
    let amount = instruction_amount(instruction_data);
    let new_record = Escrow { is_initialized: true, amount };
    let target = vstd::std_specs::vec::vec_index_mut(accounts, 0);
    match encode(&new_record, &mut target.data) {
        Ok(()) => Ok(()),
        Err(e) => Err(EscrowError::Encode(e)),
    }
}

/// The explicit call context for the initialize transition: the target
/// escrow account and the user expected to have signed the invocation.
#[derive(Debug)]
pub struct InitializeEscrow {
    pub escrow_account: AccountInfo,
    pub user: AccountInfo,
}

/// What `initialize_escrow` returns, as a function of the context alone:
/// the checks, in the order the engine makes them.
pub open spec fn spec_initialize_outcome(ctx: InitializeEscrow) -> Result<(), EscrowError> {
    if !ctx.user.is_signer {
        Err(EscrowError::Unauthorized)
    } else if !valid_record_bytes(ctx.escrow_account.data@) {
        Err(EscrowError::Decode(DecodeError::Malformed))
    } else if spec_decode(ctx.escrow_account.data@).is_initialized {
        Err(EscrowError::AlreadyInitialized)
    } else {
        Ok(())
    }
}

/// Applies the initialize transition to the context's escrow account
/// with an explicit amount, requiring the user to be a signer.
///
/// Success is owed exactly when the user signed, the escrow account's
/// bytes decode, and the decoded record is still uninitialized; the new
/// record then holds the given amount. On every failure the whole
/// context, buffers included, is left exactly as it was.
pub fn initialize_escrow(ctx: &mut InitializeEscrow, amount: u64) -> (res: Result<
    (),
    EscrowError,
>)
    ensures
        res == spec_initialize_outcome(*old(ctx)),
        res is Err ==> *final(ctx) == *old(ctx),
        res is Ok ==> {
            &&& final(ctx).escrow_account.data@ == spec_encode(spec_initialized_record(amount))
                + old(ctx).escrow_account.data@.skip(RECORD_WIDTH as int)
            &&& final(ctx).escrow_account.is_signer == old(ctx).escrow_account.is_signer
            &&& final(ctx).user == old(ctx).user
        },
{
    if !ctx.user.is_signer {
        return Err(EscrowError::Unauthorized);
    }
    let record = match decode(ctx.escrow_account.data.as_slice()) {
        Ok(record) => record,
        Err(e) => {
            return Err(EscrowError::Decode(e));
        },
    };
    if record.is_initialized() {
        return Err(EscrowError::AlreadyInitialized);
    }
    let new_record = Escrow { is_initialized: true, amount };
    match encode(&new_record, &mut ctx.escrow_account.data) {
        Ok(()) => Ok(()),
        Err(e) => Err(EscrowError::Encode(e)),
    }
}

/// Idempotent rejection: once an account's record is initialized, every
/// further initialize instruction on it is rejected as such, whatever
/// the payload, and (by `process_instruction`'s contract) the stored
/// bytes are left unchanged.
pub proof fn lemma_idempotent_rejection(accounts: Seq<AccountInfo>)
    requires
        accounts.len() > 0,
        valid_record_bytes(accounts[0].data@),
        spec_decode(accounts[0].data@).is_initialized,
    ensures
        spec_process_outcome(accounts) == Err::<(), EscrowError>(EscrowError::AlreadyInitialized),
{
}

} // verus!
