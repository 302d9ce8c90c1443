//! The client side of the token ledger.
//!
//! The token ledger is a program of its own. The escrow never changes a token
//! balance itself: it builds the instructions that ask the ledger to do so,
//! and it reads what a token account holds.

use vstd::prelude::*;
use crate::bytes::{
    le_bytes, le_value, lemma_le_bytes_len, lemma_le_value_of_bytes, lemma_radix_pow_eight,
};
use crate::pubkey::Pubkey;
use solana_program::program_error::ProgramError;
use solana_program::program_pack::Pack;
use spl_token::instruction::AuthorityType;

verus! {

/// The error type of the Solana program interface. Nothing is known of a
/// value of it but that it is an error.
#[verifier::external_type_specification]
#[verifier::external_body]
pub struct ExProgramError(solana_program::program_error::ProgramError);

/// How an instruction uses one account.
#[derive(Clone, Copy, Debug, PartialEq, Eq)]
pub struct AccountMeta {
    /// The address of the account.
    pub pubkey: Pubkey,
    /// Whether the account has to sign.
    pub is_signer: bool,
    /// Whether the instruction may change the account.
    pub is_writable: bool,
}

/// What an [`AccountMeta`] holds, as mathematical values.
pub struct AccountMetaView {
    pub pubkey: Seq<u8>,
    pub is_signer: bool,
    pub is_writable: bool,
}

impl View for AccountMeta {
    type V = AccountMetaView;

    open spec fn view(&self) -> AccountMetaView {
        AccountMetaView {
            pubkey: self.pubkey@,
            is_signer: self.is_signer,
            is_writable: self.is_writable,
        }
    }
}

/// A call of another program: the program, the accounts it is to work on,
/// and the payload.
#[derive(Clone, Debug, PartialEq, Eq)]
pub struct Instruction {
    /// The program to call.
    pub program_id: Pubkey,
    /// The accounts the call works on.
    pub accounts: Vec<AccountMeta>,
    /// The payload.
    pub data: Vec<u8>,
}

/// What an [`Instruction`] holds, as mathematical values.
pub struct InstructionView {
    pub program_id: Seq<u8>,
    pub accounts: Seq<AccountMetaView>,
    pub data: Seq<u8>,
}

impl View for Instruction {
    type V = InstructionView;

    open spec fn view(&self) -> InstructionView {
        InstructionView {
            program_id: self.program_id@,
            accounts: Seq::new(self.accounts@.len(), |i: int| self.accounts@[i]@),
            data: self.data@,
        }
    }
}

/// The address of the token program,
/// `TokenkegQfeZyiNwAJbNbGKPFXCWuBvf9Ss623VQ5DA`.
pub open spec fn token_program_id() -> Seq<u8> {
    seq![
        6u8, 221, 246, 225, 215, 101, 161, 147, 217, 203, 225, 70, 206, 235, 121, 172,
        28, 180, 133, 237, 95, 91, 55, 145, 58, 140, 245, 133, 126, 255, 0, 169,
    ]
}

/// An account that the instruction may change and that need not sign.
pub open spec fn writable(key: Seq<u8>) -> AccountMetaView {
    AccountMetaView { pubkey: key, is_signer: false, is_writable: true }
}

/// An account that the instruction only reads.
pub open spec fn readonly(key: Seq<u8>, is_signer: bool) -> AccountMetaView {
    AccountMetaView { pubkey: key, is_signer, is_writable: false }
}

/// The ledger instruction that makes `new_owner` the owner of the token
/// account `account`, on the word of its present owner `owner`, who signs.
///
/// The payload is the tag 6 (set authority), the authority type 2 (account
/// owner), the marker 1 (a new authority follows) and the new owner.
pub open spec fn set_owner_instruction(
    token_program: Seq<u8>,
    account: Seq<u8>,
    new_owner: Seq<u8>,
    owner: Seq<u8>,
) -> InstructionView {
    InstructionView {
        program_id: token_program,
        accounts: seq![writable(account), readonly(owner, false), readonly(owner, true)],
        data: seq![6u8, 2u8, 1u8] + new_owner,
    }
}

/// The ledger instruction that moves `amount` tokens from `source` to
/// `destination` on the word of `authority`, who signs.
///
/// The payload is the tag 3 (transfer) and the amount as a 64-bit
/// little-endian integer.
pub open spec fn transfer_instruction(
    token_program: Seq<u8>,
    source: Seq<u8>,
    destination: Seq<u8>,
    authority: Seq<u8>,
    amount: u64,
) -> InstructionView {
    InstructionView {
        program_id: token_program,
        accounts: seq![
            writable(source),
            writable(destination),
            readonly(authority, false),
            readonly(authority, true),
        ],
        data: seq![3u8] + le_bytes(amount as nat, 8),
    }
}

/// The new owner that a set-owner instruction names.
pub open spec fn new_owner_in(instruction: InstructionView) -> Seq<u8> {
    instruction.data.subrange(3, 35)
}

/// The amount that a transfer instruction moves.
pub open spec fn amount_in(instruction: InstructionView) -> u64 {
    le_value(instruction.data.subrange(1, 9)) as u64
}

/// A set-owner instruction names the new owner it was built for.
pub proof fn lemma_new_owner_in(
    token_program: Seq<u8>,
    account: Seq<u8>,
    new_owner: Seq<u8>,
    owner: Seq<u8>,
)
    requires
        new_owner.len() == 32,
    ensures
        new_owner_in(set_owner_instruction(token_program, account, new_owner, owner)) == new_owner,
{
    let instruction = set_owner_instruction(token_program, account, new_owner, owner);
    assert(instruction.data.subrange(3, 35) =~= new_owner);
}

/// A transfer instruction moves the amount it was built for.
pub proof fn lemma_amount_in(
    token_program: Seq<u8>,
    source: Seq<u8>,
    destination: Seq<u8>,
    authority: Seq<u8>,
    amount: u64,
)
    ensures
        amount_in(transfer_instruction(token_program, source, destination, authority, amount))
            == amount,
{
    let instruction = transfer_instruction(token_program, source, destination, authority, amount);
    lemma_le_bytes_len(amount as nat, 8);
    lemma_radix_pow_eight();
    lemma_le_value_of_bytes(amount as nat, 8);
    assert(instruction.data.subrange(1, 9) =~= le_bytes(amount as nat, 8));
}

/// Whether the four bytes at `at` are the tag of an optional field: 0 or 1
/// as a 32-bit little-endian integer.
pub open spec fn option_tag_ok(data: Seq<u8>, at: int) -> bool {
    &&& data[at] == 0 || data[at] == 1
    &&& data[at + 1] == 0
    &&& data[at + 2] == 0
    &&& data[at + 3] == 0
}

/// Whether `data` is the storage of an initialized token account: 165 bytes,
/// with well-formed tags for the delegate (at 72), the native reserve (at
/// 109) and the close authority (at 129), and the state byte (at 108) saying
/// initialized (1) or frozen (2).
pub open spec fn holds_token_account(data: Seq<u8>) -> bool {
    &&& data.len() == 165
    &&& option_tag_ok(data, 72)
    &&& data[108] == 1 || data[108] == 2
    &&& option_tag_ok(data, 109)
    &&& option_tag_ok(data, 129)
}

/// The balance of the token account stored in `data`: the 64-bit
/// little-endian integer at offset 64.
pub open spec fn token_amount(data: Seq<u8>) -> Option<u64> {
    if holds_token_account(data) {
        Some(le_value(data.subrange(64, 72)) as u64)
    } else {
        None
    }
}

/// Calls `spl_token::id`.
///
/// Trusted: the result is the address that the token program declares as its
/// own, whose 32 bytes are those of [`token_program_id`].
#[verifier::external_body]
pub(crate) fn ledger_program_id() -> (id: Pubkey)
    ensures
        id@ == token_program_id(),
{
    Pubkey { bytes: spl_token::id().to_bytes() }
}

/// Calls `spl_token::instruction::set_authority` for the authority type
/// "account owner", with `owner` as the present owner and the only signer.
///
/// Trusted: the call fails exactly if `token_program` is not the token
/// program; otherwise it returns the instruction that
/// [`set_owner_instruction`] describes.
#[verifier::external_body]
pub(crate) fn set_authority(
    token_program: &Pubkey,
    account: &Pubkey,
    new_owner: &Pubkey,
    owner: &Pubkey,
) -> (r: Result<Instruction, ProgramError>)
    ensures
        r is Ok <==> token_program@ == token_program_id(),
        r matches Ok(instruction) ==> instruction@ == set_owner_instruction(
            token_program@,
            account@,
            new_owner@,
            owner@,
        ),
{
    let signer = owner.bytes.into();
    let built = spl_token::instruction::set_authority(
        &token_program.bytes.into(), &account.bytes.into(), Some(&new_owner.bytes.into()),
        AuthorityType::AccountOwner, &signer, &[&signer],
    )?;
    let accounts = built.accounts.iter().map(|m| AccountMeta {
        pubkey: Pubkey { bytes: m.pubkey.to_bytes() },
        is_signer: m.is_signer,
        is_writable: m.is_writable,
    }).collect();
    Ok(Instruction { program_id: Pubkey { bytes: built.program_id.to_bytes() }, accounts, data: built.data })
}

/// Calls `spl_token::instruction::transfer` with `authority` as the
/// authority and the only signer.
///
/// Trusted: the call fails exactly if `token_program` is not the token
/// program; otherwise it returns the instruction that
/// [`transfer_instruction`] describes.
#[verifier::external_body]
pub(crate) fn transfer(
    token_program: &Pubkey,
    source: &Pubkey,
    destination: &Pubkey,
    authority: &Pubkey,
    amount: u64,
) -> (r: Result<Instruction, ProgramError>)
    ensures
        r is Ok <==> token_program@ == token_program_id(),
        r matches Ok(instruction) ==> instruction@ == transfer_instruction(
            token_program@,
            source@,
            destination@,
            authority@,
            amount,
        ),
{
    let signer = authority.bytes.into();
    let built = spl_token::instruction::transfer(
        &token_program.bytes.into(), &source.bytes.into(), &destination.bytes.into(),
        &signer, &[&signer], amount,
    )?;
    let accounts = built.accounts.iter().map(|m| AccountMeta {
        pubkey: Pubkey { bytes: m.pubkey.to_bytes() },
        is_signer: m.is_signer,
        is_writable: m.is_writable,
    }).collect();
    Ok(Instruction { program_id: Pubkey { bytes: built.program_id.to_bytes() }, accounts, data: built.data })
}

/// Calls `spl_token::state::Account::unpack` and hands out the amount.
///
/// Trusted: the call succeeds exactly on the storage of an initialized token
/// account, as [`holds_token_account`] describes it, and the amount is the
/// one that [`token_amount`] reads.
#[verifier::external_body]
pub(crate) fn unpack_token_amount(data: &[u8]) -> (r: Result<u64, ProgramError>)
    ensures
        r is Ok <==> holds_token_account(data@),
        r matches Ok(amount) ==> token_amount(data@) == Some(amount),
{
    match spl_token::state::Account::unpack(data) {
        Ok(account) => Ok(account.amount),
        Err(e) => Err(e),
    }
}

/// Whether `key` is the address of the token program.
pub fn is_token_program(key: &Pubkey) -> (yes: bool)
    ensures
        yes == (key@ == token_program_id()),
{
    *key == ledger_program_id()
}

/// The balance of the token account stored in `data`, if it is the storage
/// of an initialized token account.
pub fn read_token_amount(data: &[u8]) -> (amount: Option<u64>)
    ensures
        amount == token_amount(data@),
{
    match unpack_token_amount(data) {
        Ok(amount) => Some(amount),
        Err(_) => None,
    }
}

} // verus!
