//! The escrow state machine: the dispatcher and the two handlers.
//!
//! An escrow record is either not live or live. `InitEscrow` makes a record
//! live and hands the holding account to the escrow authority. `FinalizeEscrow`
//! works only on a live record: it releases the locked tokens to the taker,
//! pays the initializer, and closes the record, so that the same request
//! cannot be carried out twice.
//!
//! Closing a record zeroes its storage and nothing more. The lamports of the
//! escrow account stay in it, and the holding account stays with the escrow
//! authority: `FinalizeEscrow` asks the ledger for the two transfers and for
//! no other call.
//!
//! A handler either rejects the request and changes nothing, or it accepts
//! it, stores the new record in the account list it was handed, and returns
//! the ledger calls that carry the request out. The caller invokes them. A
//! request takes effect as a whole or not at all: if one of the calls fails,
//! the caller has to drop the whole transaction, the stored record included.

use vstd::prelude::*;
use crate::account::{account_views, next_account_info, Account, AccountView};
use crate::authority::{authority_view, escrow_authority, find_escrow_authority};
use crate::error::EscrowError;
use crate::instruction::{decoded, EscrowInstruction};
use crate::pubkey::Pubkey;
use crate::rent::{consult_rent_oracle, rent_verdict};
use crate::state::{packed, unpacked, Escrow, EscrowView};
use crate::token::{
    is_token_program, read_token_amount, set_authority, set_owner_instruction, token_amount,
    token_program_id, transfer, transfer_instruction, Instruction, InstructionView,
};

verus! {

/// A call of the token ledger that the caller of a handler has to invoke.
#[derive(Clone, Debug, PartialEq, Eq)]
pub struct LedgerCall {
    /// The instruction to invoke.
    pub instruction: Instruction,
    /// The bump seed with which the escrow authority signs the call; `None`
    /// where the signers of the transaction suffice.
    pub authority_bump: Option<u8>,
}

/// What a [`LedgerCall`] holds, as mathematical values.
pub struct LedgerCallView {
    pub instruction: InstructionView,
    pub authority_bump: Option<u8>,
}

impl View for LedgerCall {
    type V = LedgerCallView;

    open spec fn view(&self) -> LedgerCallView {
        LedgerCallView { instruction: self.instruction@, authority_bump: self.authority_bump }
    }
}

/// The views of the calls of a list, in order.
pub open spec fn call_views(calls: Seq<LedgerCall>) -> Seq<LedgerCallView> {
    Seq::new(calls.len(), |i: int| calls[i]@)
}

/// What an accepted request does: the record to store, the account to store
/// it in, and the ledger calls to invoke.
#[derive(Clone, Debug, PartialEq, Eq)]
pub struct Transition {
    /// The position of the escrow record account in the account list.
    pub record_at: usize,
    /// The record to store there.
    pub record: Escrow,
    /// The ledger calls to invoke, in order.
    pub calls: Vec<LedgerCall>,
}

/// What a [`Transition`] holds, as mathematical values.
pub struct TransitionView {
    pub record_at: usize,
    pub record: EscrowView,
    pub calls: Seq<LedgerCallView>,
}

impl View for Transition {
    type V = TransitionView;

    open spec fn view(&self) -> TransitionView {
        TransitionView {
            record_at: self.record_at,
            record: self.record@,
            calls: call_views(self.calls@),
        }
    }
}

/// The view of a handler's decision.
pub open spec fn decision_view(r: Result<Transition, EscrowError>) -> Result<
    TransitionView,
    EscrowError,
> {
    match r {
        Ok(transition) => Ok(transition@),
        Err(e) => Err(e),
    }
}

/// `InitEscrow`, first account: the initializer, who has to sign.
pub const INIT_INITIALIZER: usize = 0;

/// `InitEscrow`, second account: the holding account with the tokens to lock.
pub const INIT_TEMP_ACCOUNT: usize = 1;

/// `InitEscrow`, third account: the token account in which the initializer
/// wants to be paid.
pub const INIT_RECEIVING_ACCOUNT: usize = 2;

/// `InitEscrow`, fourth account: the storage of the escrow record.
pub const INIT_ESCROW_ACCOUNT: usize = 3;

/// `InitEscrow`, fifth account: the rent oracle.
pub const INIT_RENT_ORACLE: usize = 4;

/// `InitEscrow`, sixth account: the token program.
pub const INIT_TOKEN_PROGRAM: usize = 5;

/// `FinalizeEscrow`, first account: the taker, who has to sign.
pub const FIN_TAKER: usize = 0;

/// `FinalizeEscrow`, second account: the token account from which the taker
/// pays.
pub const FIN_TAKER_SEND_ACCOUNT: usize = 1;

/// `FinalizeEscrow`, third account: the token account in which the taker
/// receives the locked tokens.
pub const FIN_TAKER_RECEIVE_ACCOUNT: usize = 2;

/// `FinalizeEscrow`, fourth account: the holding account, read for its
/// balance.
pub const FIN_TEMP_ACCOUNT: usize = 3;

/// `FinalizeEscrow`, fifth account: the initializer.
pub const FIN_INITIALIZER: usize = 4;

/// `FinalizeEscrow`, sixth account: the token account in which the
/// initializer is paid.
pub const FIN_RECEIVING_ACCOUNT: usize = 5;

/// `FinalizeEscrow`, seventh account: the storage of the escrow record.
pub const FIN_ESCROW_ACCOUNT: usize = 6;

/// `FinalizeEscrow`, eighth account: the token program.
pub const FIN_TOKEN_PROGRAM: usize = 7;

/// The record that `InitEscrow` stores: live, with the initializer, the
/// holding account and the receiving account as supplied, and the amount
/// asked for.
pub open spec fn opened_record(accounts: Seq<AccountView>, amount: u64) -> EscrowView {
    EscrowView {
        is_initialized: true,
        initializer: accounts[INIT_INITIALIZER as int].key,
        temp_account: accounts[INIT_TEMP_ACCOUNT as int].key,
        receiving_account: accounts[INIT_RECEIVING_ACCOUNT as int].key,
        expected_amount: amount,
    }
}

/// Whether `InitEscrow` is accepted: all six accounts are there, the
/// initializer has signed, the receiving account belongs to the token
/// program, the rent oracle finds the escrow account exempt, the escrow
/// account holds a record that is not live, an authority exists, and the
/// token program handle names the token program.
pub open spec fn init_accepted(accounts: Seq<AccountView>, authority: Option<(Seq<u8>, u8)>) -> bool {
    &&& accounts.len() > INIT_TOKEN_PROGRAM
    &&& accounts[INIT_INITIALIZER as int].is_signer
    &&& accounts[INIT_RECEIVING_ACCOUNT as int].owner == token_program_id()
    &&& rent_verdict(
        accounts[INIT_RENT_ORACLE as int],
        accounts[INIT_ESCROW_ACCOUNT as int].lamports,
        accounts[INIT_ESCROW_ACCOUNT as int].data.len() as usize,
    ) == Some(true)
    &&& accounts[INIT_ESCROW_ACCOUNT as int].data.len() == Escrow::LEN
    &&& !unpacked(accounts[INIT_ESCROW_ACCOUNT as int].data).is_initialized
    &&& authority is Some
    &&& accounts[INIT_TOKEN_PROGRAM as int].key == token_program_id()
}

/// Whether `FinalizeEscrow` is accepted: all eight accounts are there, the
/// taker has signed, the taker's two accounts belong to the token program,
/// the holding account is an initialized token account, the escrow account
/// holds a live record whose receiving account is the one supplied, an
/// authority exists, and the token program handle names the token program.
pub open spec fn finalize_accepted(
    accounts: Seq<AccountView>,
    authority: Option<(Seq<u8>, u8)>,
) -> bool {
    &&& accounts.len() > FIN_TOKEN_PROGRAM
    &&& accounts[FIN_TAKER as int].is_signer
    &&& accounts[FIN_TAKER_SEND_ACCOUNT as int].owner == token_program_id()
    &&& accounts[FIN_TAKER_RECEIVE_ACCOUNT as int].owner == token_program_id()
    &&& token_amount(accounts[FIN_TEMP_ACCOUNT as int].data) is Some
    &&& accounts[FIN_ESCROW_ACCOUNT as int].data.len() == Escrow::LEN
    &&& unpacked(accounts[FIN_ESCROW_ACCOUNT as int].data).is_initialized
    &&& unpacked(accounts[FIN_ESCROW_ACCOUNT as int].data).receiving_account
        == accounts[FIN_RECEIVING_ACCOUNT as int].key
    &&& authority is Some
    &&& accounts[FIN_TOKEN_PROGRAM as int].key == token_program_id()
}

/// What `InitEscrow` decides on a list of accounts, an amount, and the
/// authority derived for the program.
///
/// The checks are made in the order in which the accounts stand in the list,
/// and the first that fails decides the error:
/// the initializer has signed; the receiving account belongs to the token
/// program; the rent oracle finds the escrow account exempt; the escrow
/// account has the size of a record and the record is not live; an authority
/// exists; the token program handle names the token program.
///
/// An accepted request stores the opened record and asks the ledger to make
/// the authority the owner of the holding account.
pub open spec fn init_decision(
    accounts: Seq<AccountView>,
    amount: u64,
    authority: Option<(Seq<u8>, u8)>,
) -> Result<TransitionView, EscrowError> {
    if accounts.len() <= INIT_INITIALIZER {
        Err(EscrowError::NotEnoughAccounts)
    } else if !accounts[INIT_INITIALIZER as int].is_signer {
        Err(EscrowError::MissingSignature)
    } else if accounts.len() <= INIT_RECEIVING_ACCOUNT {
        Err(EscrowError::NotEnoughAccounts)
    } else if accounts[INIT_RECEIVING_ACCOUNT as int].owner != token_program_id() {
        Err(EscrowError::WrongProgram)
    } else if accounts.len() <= INIT_RENT_ORACLE {
        Err(EscrowError::NotEnoughAccounts)
    } else {
        let escrow = accounts[INIT_ESCROW_ACCOUNT as int];
        match rent_verdict(
            accounts[INIT_RENT_ORACLE as int],
            escrow.lamports,
            escrow.data.len() as usize,
        ) {
            None => Err(EscrowError::InvalidRentOracle),
            Some(false) => Err(EscrowError::NotRentExempt),
            Some(true) => if escrow.data.len() != Escrow::LEN {
                Err(EscrowError::InvalidAccountData)
            } else if unpacked(escrow.data).is_initialized {
                Err(EscrowError::AlreadyInitialized)
            } else {
                match authority {
                    None => Err(EscrowError::AuthorityUnavailable),
                    Some((authority_key, bump)) => if accounts.len() <= INIT_TOKEN_PROGRAM {
                        Err(EscrowError::NotEnoughAccounts)
                    } else if accounts[INIT_TOKEN_PROGRAM as int].key != token_program_id() {
                        Err(EscrowError::WrongProgram)
                    } else {
                        Ok(
                            TransitionView {
                                record_at: INIT_ESCROW_ACCOUNT,
                                record: opened_record(accounts, amount),
                                calls: seq![
                                    LedgerCallView {
                                        instruction: set_owner_instruction(
                                            accounts[INIT_TOKEN_PROGRAM as int].key,
                                            accounts[INIT_TEMP_ACCOUNT as int].key,
                                            authority_key,
                                            accounts[INIT_INITIALIZER as int].key,
                                        ),
                                        authority_bump: None,
                                    },
                                ],
                            },
                        )
                    },
                }
            },
        }
    }
}

/// What `FinalizeEscrow` decides on a list of accounts and the authority
/// derived for the program.
///
/// The checks are made in the order in which the accounts stand in the list,
/// and the first that fails decides the error:
/// the taker has signed; the taker's two accounts belong to the token
/// program; the holding account is an initialized token account; the escrow
/// account has the size of a record, the record is live, and its receiving
/// account is the one supplied; the token program handle is there; an
/// authority exists; the handle names the token program. The initializer's
/// own account has its place in the list and is not looked at.
///
/// An accepted request stores the closed record and asks the ledger for two
/// transfers in the name of the authority: the whole balance of the holding
/// account to the taker, and the expected amount from the taker to the
/// initializer's receiving account.
pub open spec fn finalize_decision(
    accounts: Seq<AccountView>,
    authority: Option<(Seq<u8>, u8)>,
) -> Result<TransitionView, EscrowError> {
    if accounts.len() <= FIN_TAKER {
        Err(EscrowError::NotEnoughAccounts)
    } else if !accounts[FIN_TAKER as int].is_signer {
        Err(EscrowError::MissingSignature)
    } else if accounts.len() <= FIN_TAKER_SEND_ACCOUNT {
        Err(EscrowError::NotEnoughAccounts)
    } else if accounts[FIN_TAKER_SEND_ACCOUNT as int].owner != token_program_id() {
        Err(EscrowError::WrongProgram)
    } else if accounts.len() <= FIN_TAKER_RECEIVE_ACCOUNT {
        Err(EscrowError::NotEnoughAccounts)
    } else if accounts[FIN_TAKER_RECEIVE_ACCOUNT as int].owner != token_program_id() {
        Err(EscrowError::WrongProgram)
    } else if accounts.len() <= FIN_TEMP_ACCOUNT {
        Err(EscrowError::NotEnoughAccounts)
    } else {
        match token_amount(accounts[FIN_TEMP_ACCOUNT as int].data) {
            None => Err(EscrowError::InvalidAccountData),
            Some(balance) => if accounts.len() <= FIN_ESCROW_ACCOUNT {
                Err(EscrowError::NotEnoughAccounts)
            } else if accounts[FIN_ESCROW_ACCOUNT as int].data.len() != Escrow::LEN {
                Err(EscrowError::InvalidAccountData)
            } else {
                let record = unpacked(accounts[FIN_ESCROW_ACCOUNT as int].data);
                if !record.is_initialized {
                    Err(EscrowError::ProtocolViolation)
                } else if record.receiving_account != accounts[FIN_RECEIVING_ACCOUNT as int].key {
                    Err(EscrowError::ProtocolViolation)
                } else if accounts.len() <= FIN_TOKEN_PROGRAM {
                    Err(EscrowError::NotEnoughAccounts)
                } else {
                    match authority {
                        None => Err(EscrowError::AuthorityUnavailable),
                        Some((authority_key, bump)) => if accounts[FIN_TOKEN_PROGRAM as int].key
                            != token_program_id() {
                            Err(EscrowError::WrongProgram)
                        } else {
                            Ok(
                                TransitionView {
                                    record_at: FIN_ESCROW_ACCOUNT,
                                    record: EscrowView::closed(),
                                    calls: seq![
                                        LedgerCallView {
                                            instruction: transfer_instruction(
                                                accounts[FIN_TOKEN_PROGRAM as int].key,
                                                record.temp_account,
                                                accounts[FIN_TAKER_RECEIVE_ACCOUNT as int].key,
                                                authority_key,
                                                balance,
                                            ),
                                            authority_bump: Some(bump),
                                        },
                                        LedgerCallView {
                                            instruction: transfer_instruction(
                                                accounts[FIN_TOKEN_PROGRAM as int].key,
                                                accounts[FIN_TAKER_SEND_ACCOUNT as int].key,
                                                accounts[FIN_RECEIVING_ACCOUNT as int].key,
                                                authority_key,
                                                record.expected_amount,
                                            ),
                                            authority_bump: Some(bump),
                                        },
                                    ],
                                },
                            )
                        },
                    }
                }
            },
        }
    }
}

/// What the program decides on an instruction payload: a payload that does
/// not decode is refused, any other goes to the handler of its phase. The
/// amount that comes with `FinalizeEscrow` is not used.
pub open spec fn decision(
    accounts: Seq<AccountView>,
    instruction_data: Seq<u8>,
    authority: Option<(Seq<u8>, u8)>,
) -> Result<TransitionView, EscrowError> {
    match decoded(instruction_data) {
        None => Err(EscrowError::InvalidInstruction),
        Some(EscrowInstruction::InitEscrow { amount }) => init_decision(
            accounts,
            amount,
            authority,
        ),
        Some(EscrowInstruction::FinalizeEscrow { amount }) => finalize_decision(
            accounts,
            authority,
        ),
    }
}

/// The accounts after a transition is stored: the escrow record account
/// holds the new record; nothing else has changed.
pub open spec fn committed(accounts: Seq<AccountView>, transition: TransitionView) -> Seq<
    AccountView,
> {
    accounts.update(
        transition.record_at as int,
        AccountView {
            data: packed(transition.record),
            ..accounts[transition.record_at as int]
        },
    )
}

/// What a handler does to the accounts and returns, given its decision: an
/// accepted request is stored and its calls are returned; a rejected one
/// leaves the accounts as they were and returns its error.
pub open spec fn carried_out(
    decision: Result<TransitionView, EscrowError>,
    before: Seq<Account>,
    after: Seq<Account>,
    r: Result<Vec<LedgerCall>, EscrowError>,
) -> bool {
    match decision {
        Ok(transition) => {
            &&& r is Ok
            &&& call_views(r->Ok_0@) == transition.calls
            &&& account_views(after) == committed(account_views(before), transition)
        },
        Err(e) => {
            &&& r == Err::<Vec<LedgerCall>, EscrowError>(e)
            &&& after == before
        },
    }
}

/// Decides an `InitEscrow` request, given the authority derived for the
/// program. Nothing is changed: the decision says what to store and what to
/// invoke.
pub fn plan_init_escrow(
    accounts: &[Account],
    amount: u64,
    authority: Option<(Pubkey, u8)>,
) -> (r: Result<Transition, EscrowError>)
    ensures
        decision_view(r) == init_decision(
            account_views(accounts@),
            amount,
            authority_view(authority),
        ),
{
    let mut next: usize = 0;
    let initializer = next_account_info(accounts, &mut next)?;
    if !initializer.is_signer {
        return Err(EscrowError::MissingSignature);
    }
    let temp_token_account = next_account_info(accounts, &mut next)?;
    let token_to_receive_account = next_account_info(accounts, &mut next)?;
    if !is_token_program(&token_to_receive_account.owner) {
        return Err(EscrowError::WrongProgram);
    }
    let escrow_account = next_account_info(accounts, &mut next)?;
    let rent_account = next_account_info(accounts, &mut next)?;
    match consult_rent_oracle(rent_account, escrow_account.lamports, escrow_account.data.len()) {
        None => {
            return Err(EscrowError::InvalidRentOracle);
        },
        Some(exempt) => {
            if !exempt {
                return Err(EscrowError::NotRentExempt);
            }
        },
    }
    let escrow_info = Escrow::unpack_unchecked(escrow_account.data.as_slice())?;
    if escrow_info.is_initialized() {
        return Err(EscrowError::AlreadyInitialized);
    }
    let record = Escrow {
        is_initialized: true,
        initializer_pubkey: initializer.key,
        temp_token_account_pubkey: temp_token_account.key,
        initializer_token_to_receive_account_pubkey: token_to_receive_account.key,
        expected_amount: amount,
    };
    let authority_key = match authority {
        None => {
            return Err(EscrowError::AuthorityUnavailable);
        },
        Some((key, _bump)) => key,
    };
    let token_program = next_account_info(accounts, &mut next)?;
    let owner_change = match set_authority(
        &token_program.key,
        &temp_token_account.key,
        &authority_key,
        &initializer.key,
    ) {
        Ok(instruction) => instruction,
        Err(_) => {
            return Err(EscrowError::WrongProgram);
        },
    };
    let mut calls: Vec<LedgerCall> = Vec::new();
    calls.push(LedgerCall { instruction: owner_change, authority_bump: None });
    let transition = Transition { record_at: INIT_ESCROW_ACCOUNT, record, calls };
    proof {
        let decided = init_decision(account_views(accounts@), amount, authority_view(authority));
        assert(decided is Ok);
        assert(transition@.calls =~= decided->Ok_0.calls);
    }
    Ok(transition)
}

/// Decides a `FinalizeEscrow` request, given the authority derived for the
/// program. Nothing is changed: the decision says what to store and what to
/// invoke.
pub fn plan_finalize_escrow(accounts: &[Account], authority: Option<(Pubkey, u8)>) -> (r: Result<
    Transition,
    EscrowError,
>)
    ensures
        decision_view(r) == finalize_decision(account_views(accounts@), authority_view(authority)),
{
    let mut next: usize = 0;
    let taker = next_account_info(accounts, &mut next)?;
    if !taker.is_signer {
        return Err(EscrowError::MissingSignature);
    }
    let taker_send_account = next_account_info(accounts, &mut next)?;
    if !is_token_program(&taker_send_account.owner) {
        return Err(EscrowError::WrongProgram);
    }
    let taker_receive_account = next_account_info(accounts, &mut next)?;
    if !is_token_program(&taker_receive_account.owner) {
        return Err(EscrowError::WrongProgram);
    }
    let temp_token_account = next_account_info(accounts, &mut next)?;
    let balance = match read_token_amount(temp_token_account.data.as_slice()) {
        None => {
            return Err(EscrowError::InvalidAccountData);
        },
        Some(amount) => amount,
    };
    let _initializer = next_account_info(accounts, &mut next)?;
    let receiving_account = next_account_info(accounts, &mut next)?;
    let escrow_account = next_account_info(accounts, &mut next)?;
    let escrow_info = Escrow::unpack_unchecked(escrow_account.data.as_slice())?;
    if !escrow_info.is_initialized() {
        return Err(EscrowError::ProtocolViolation);
    }
    if escrow_info.initializer_token_to_receive_account_pubkey != receiving_account.key {
        return Err(EscrowError::ProtocolViolation);
    }
    let token_program = next_account_info(accounts, &mut next)?;
    let (authority_key, bump) = match authority {
        None => {
            return Err(EscrowError::AuthorityUnavailable);
        },
        Some(found) => found,
    };
    let release = match transfer(
        &token_program.key,
        &escrow_info.temp_token_account_pubkey,
        &taker_receive_account.key,
        &authority_key,
        balance,
    ) {
        Ok(instruction) => instruction,
        Err(_) => {
            return Err(EscrowError::WrongProgram);
        },
    };
    let payment = match transfer(
        &token_program.key,
        &taker_send_account.key,
        &receiving_account.key,
        &authority_key,
        escrow_info.expected_amount,
    ) {
        Ok(instruction) => instruction,
        Err(_) => {
            return Err(EscrowError::WrongProgram);
        },
    };
    let mut calls: Vec<LedgerCall> = Vec::new();
    calls.push(LedgerCall { instruction: release, authority_bump: Some(bump) });
    calls.push(LedgerCall { instruction: payment, authority_bump: Some(bump) });
    let transition = Transition { record_at: FIN_ESCROW_ACCOUNT, record: Escrow::closed(), calls };
    proof {
        let decided = finalize_decision(account_views(accounts@), authority_view(authority));
        assert(decided is Ok);
        assert(transition@.calls =~= decided->Ok_0.calls);
    }
    Ok(transition)
}

/// Stores an accepted transition in the accounts and hands out its calls.
fn commit(accounts: &mut Vec<Account>, transition: Transition) -> (calls: Vec<LedgerCall>)
    requires
        transition.record_at < old(accounts)@.len(),
    ensures
        call_views(calls@) == transition@.calls,
        account_views(final(accounts)@) == committed(account_views(old(accounts)@), transition@),
{
    let stored = transition.record.pack();
    accounts[transition.record_at].data = stored;
    assert(account_views(accounts@) =~= committed(account_views(old(accounts)@), transition@));
    transition.calls
}

/// The escrow program.
pub struct Processor;

impl Processor {
    /// Carries out one instruction of the escrow program `program_id` on the
    /// accounts that come with it.
    pub fn process(program_id: &Pubkey, accounts: &mut Vec<Account>, instruction_data: &[u8]) -> (r:
        Result<Vec<LedgerCall>, EscrowError>)
        ensures
            carried_out(
                decision(
                    account_views(old(accounts)@),
                    instruction_data@,
                    escrow_authority(program_id@),
                ),
                old(accounts)@,
                final(accounts)@,
                r,
            ),
    {
        let instruction = EscrowInstruction::unpack(instruction_data)?;
        match instruction {
            EscrowInstruction::InitEscrow { amount } => Self::process_init_escrow(
                accounts,
                amount,
                program_id,
            ),
            EscrowInstruction::FinalizeEscrow { amount } => Self::process_finalize_escrow(
                accounts,
                amount,
                program_id,
            ),
        }
    }

    /// Opens an escrow: validates the initializer's accounts, stores the
    /// terms in the escrow record, and returns the ledger call that hands the
    /// holding account to the escrow authority.
    pub fn process_init_escrow(accounts: &mut Vec<Account>, amount: u64, program_id: &Pubkey) -> (r:
        Result<Vec<LedgerCall>, EscrowError>)
        ensures
            carried_out(
                init_decision(
                    account_views(old(accounts)@),
                    amount,
                    escrow_authority(program_id@),
                ),
                old(accounts)@,
                final(accounts)@,
                r,
            ),
    {
        let authority = find_escrow_authority(program_id);
        let transition = plan_init_escrow(accounts.as_slice(), amount, authority)?;
        Ok(commit(accounts, transition))
    }

    /// Completes an escrow: validates the taker's accounts against the stored
    /// terms, closes the record, and returns the two ledger calls that release
    /// the locked tokens to the taker and pay the initializer. The amount that
    /// comes with the instruction is not used.
    pub fn process_finalize_escrow(
        accounts: &mut Vec<Account>,
        amount: u64,
        program_id: &Pubkey,
    ) -> (r: Result<Vec<LedgerCall>, EscrowError>)
        ensures
            carried_out(
                finalize_decision(account_views(old(accounts)@), escrow_authority(program_id@)),
                old(accounts)@,
                final(accounts)@,
                r,
            ),
    {
        let authority = find_escrow_authority(program_id);
        let transition = plan_finalize_escrow(accounts.as_slice(), authority)?;
        Ok(commit(accounts, transition))
    }
}

} // verus!
