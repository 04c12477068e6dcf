use vstd::prelude::*;
use solana_program::instruction::{AccountMeta, Instruction};
use solana_program::program_error::ProgramError;
use solana_program::program_pack::Pack;
use solana_program::pubkey::Pubkey;
use crate::accounts::SwapAccounts;
use crate::error::SwapError;
use crate::transfer::Leg;

verus! {

#[verifier::external_type_specification]
#[verifier::external_body]
pub struct ExPubkey(Pubkey);

#[verifier::external_type_specification]
pub struct ExAccountMeta(AccountMeta);

#[verifier::external_type_specification]
pub struct ExInstruction(Instruction);

/// Tag of the token ledger's transfer instruction.
pub const TRANSFER_TAG: u8 = 3;

/// The eight little-endian bytes of `x`.
pub open spec fn le_bytes(x: u64) -> Seq<u8> {
    Seq::new(8, |i: int| ((x >> ((8 * i) as u64)) & 0xff) as u8)
}

/// The data of a token transfer of `amount`: the tag, then the amount.
pub open spec fn transfer_data(amount: u64) -> Seq<u8> {
    seq![TRANSFER_TAG].add(le_bytes(amount))
}

/// The accounts of a token transfer signed by its source: source and
/// destination writable, the authority read-only, the source as signer.
pub open spec fn transfer_metas(source: Pubkey, destination: Pubkey, authority: Pubkey) -> Seq<
    AccountMeta,
> {
    seq![
        AccountMeta { pubkey: source, is_signer: false, is_writable: true },
        AccountMeta { pubkey: destination, is_signer: false, is_writable: true },
        AccountMeta { pubkey: authority, is_signer: false, is_writable: false },
        AccountMeta { pubkey: source, is_signer: true, is_writable: false },
    ]
}

/// Relies on spl_token::instruction::transfer, called with the token
/// program's own id and the source as the one signer: the id check passes, so
/// it returns `Ok`, with the accounts and the packed data it lists.
#[verifier::external_body]
fn token_transfer(source: &Pubkey, destination: &Pubkey, authority: &Pubkey, amount: u64) -> (r:
    Result<Instruction, ProgramError>)
    ensures
        r is Ok,
        r is Ok ==> r->Ok_0.accounts@ == transfer_metas(*source, *destination, *authority),
        r is Ok ==> r->Ok_0.data@ == transfer_data(amount),
{
    spl_token::instruction::transfer(
        &spl_token::id(),
        source,
        destination,
        authority,
        &[source],
        amount,
    )
}

/// Size of a token account record.
pub const TOKEN_ACCOUNT_LEN: usize = 165;

/// Whether the four bytes at `at` are a valid optional-value tag (none or some).
pub open spec fn option_tag_ok(d: Seq<u8>, at: int) -> bool {
    &&& d[at] == 0 || d[at] == 1
    &&& d[at + 1] == 0
    &&& d[at + 2] == 0
    &&& d[at + 3] == 0
}

/// Whether a token account record of the right size has valid optional-value
/// tags (delegate, native flag, close authority) and a known state byte.
pub open spec fn record_well_formed(d: Seq<u8>) -> bool {
    &&& option_tag_ok(d, 72)
    &&& d[108] <= 2
    &&& option_tag_ok(d, 109)
    &&& option_tag_ok(d, 129)
}

/// Whether `data` is a token account record the ledger accepts: the right
/// size, well formed and initialized.
pub open spec fn readable_record(data: Seq<u8>) -> bool {
    data.len() == TOKEN_ACCOUNT_LEN && record_well_formed(data) && data[108] != 0
}

/// The error with which the ledger rejects a record that is not readable.
pub open spec fn record_error(data: Seq<u8>) -> ProgramError {
    if data.len() != TOKEN_ACCOUNT_LEN || !record_well_formed(data) {
        ProgramError::InvalidAccountData
    } else {
        ProgramError::UninitializedAccount
    }
}

/// Relies on spl_token::state::Account::unpack (through Pack::unpack): a
/// record must be exactly 165 bytes, with valid tags and state byte
/// (otherwise `InvalidAccountData`), and initialized (otherwise
/// `UninitializedAccount`); the balance is the little-endian u64 at byte 64.
#[verifier::external_body]
fn unpack_token_amount(data: &[u8]) -> (r: Result<u64, ProgramError>)
    ensures
        r is Ok <==> readable_record(data@),
        r is Ok ==> le_bytes(r->Ok_0) == data@.subrange(64, 72),
        r is Err ==> r->Err_0 == record_error(data@),
{
    spl_token::state::Account::unpack(data).map(|account| account.amount)
}

/// Reads the balance held in a token account record. A record the ledger
/// rejects yields its error, unchanged.
pub fn token_balance(data: &[u8]) -> (r: Result<u64, SwapError>)
    ensures
        r is Ok <==> readable_record(data@),
        r is Ok ==> le_bytes(r->Ok_0) == data@.subrange(64, 72),
        r is Err ==> r->Err_0 == SwapError::Ledger(record_error(data@)),
{
    match unpack_token_amount(data) {
        Ok(amount) => Ok(amount),
        Err(e) => Err(SwapError::Ledger(e)),
    }
}

/// Builds the token-ledger instruction of `leg` over the swap's account keys,
/// with `program_id` as the authority named in it and the leg's source as signer.
pub fn leg_instruction(leg: &Leg, keys: &SwapAccounts<Pubkey>, program_id: &Pubkey) -> (r: Result<
    Instruction,
    SwapError,
>)
    ensures
        r is Ok,
        r is Ok ==> r->Ok_0.accounts@ == transfer_metas(
            keys.spec_account(leg.spec_source()),
            keys.spec_account(leg.spec_destination()),
            *program_id,
        ),
        r is Ok ==> r->Ok_0.data@ == transfer_data(leg.amount),
{
    let source = keys.account(leg.source());
    let destination = keys.account(leg.destination());
    match token_transfer(source, destination, program_id, leg.amount) {
        Ok(ix) => Ok(ix),
        Err(e) => Err(SwapError::Ledger(e)),
    }
}

} // verus!
