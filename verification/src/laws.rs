//! What holds of the escrow state machine, whatever it is handed.

use vstd::prelude::*;
use crate::account::{accounts_well_formed, AccountView};
use crate::error::{ErrorClass, EscrowError};
use crate::instruction::{decoded, EscrowInstruction};
use crate::processor::{
    committed, decision, finalize_accepted, finalize_decision, init_accepted, init_decision,
    opened_record, TransitionView, FIN_ESCROW_ACCOUNT, FIN_RECEIVING_ACCOUNT, FIN_TAKER,
    FIN_TAKER_RECEIVE_ACCOUNT, FIN_TAKER_SEND_ACCOUNT, FIN_TEMP_ACCOUNT, INIT_ESCROW_ACCOUNT,
    INIT_INITIALIZER, INIT_RECEIVING_ACCOUNT, INIT_RENT_ORACLE, INIT_TEMP_ACCOUNT,
};
use crate::rent::rent_verdict;
use crate::state::{lemma_closed_is_zeroed, lemma_unpack_pack, packed, unpacked, Escrow, EscrowView};
use crate::token::{
    amount_in, lemma_amount_in, lemma_new_owner_in, new_owner_in, set_owner_instruction,
    token_amount, token_program_id, transfer_instruction,
};

verus! {

/// After an accepted `InitEscrow` the escrow account holds a live record
/// whose fields are exactly the accounts and the amount supplied, no other
/// account has changed, and the one ledger call asks the token program to
/// make the derived authority the owner of the holding account, on the word
/// of the initializer. Where the authority has the 32 bytes of an address,
/// it is the new owner that the call names.
pub proof fn lemma_init_stores_terms(
    accounts: Seq<AccountView>,
    amount: u64,
    authority: Option<(Seq<u8>, u8)>,
)
    requires
        accounts_well_formed(accounts),
        init_decision(accounts, amount, authority) is Ok,
    ensures
        authority is Some,
        ({
            let transition = init_decision(accounts, amount, authority)->Ok_0;
            let after = committed(accounts, transition);
            let record = unpacked(after[INIT_ESCROW_ACCOUNT as int].data);
            let call = transition.calls[0];
            &&& after.len() == accounts.len()
            &&& forall|i: int|
                0 <= i < accounts.len() && i != INIT_ESCROW_ACCOUNT ==> after[i] == accounts[i]
            &&& after[INIT_ESCROW_ACCOUNT as int].data.len() == Escrow::LEN
            &&& record.is_initialized
            &&& record.initializer == accounts[INIT_INITIALIZER as int].key
            &&& record.temp_account == accounts[INIT_TEMP_ACCOUNT as int].key
            &&& record.receiving_account == accounts[INIT_RECEIVING_ACCOUNT as int].key
            &&& record.expected_amount == amount
            &&& transition.calls.len() == 1
            &&& call.authority_bump is None
            &&& call.instruction == set_owner_instruction(
                token_program_id(),
                accounts[INIT_TEMP_ACCOUNT as int].key,
                authority->Some_0.0,
                accounts[INIT_INITIALIZER as int].key,
            )
            &&& authority->Some_0.0.len() == 32 ==> new_owner_in(call.instruction)
                == authority->Some_0.0
        }),
{
    let transition = init_decision(accounts, amount, authority)->Ok_0;
    assert(transition.record == opened_record(accounts, amount));
    lemma_unpack_pack(transition.record);
    if authority->Some_0.0.len() == 32 {
        lemma_new_owner_in(
            token_program_id(),
            accounts[INIT_TEMP_ACCOUNT as int].key,
            authority->Some_0.0,
            accounts[INIT_INITIALIZER as int].key,
        );
    }
}

/// `InitEscrow` is accepted exactly on the requests that
/// [`init_accepted`] describes, whatever the amount.
pub proof fn lemma_init_accepted(
    accounts: Seq<AccountView>,
    amount: u64,
    authority: Option<(Seq<u8>, u8)>,
)
    ensures
        init_decision(accounts, amount, authority) is Ok <==> init_accepted(accounts, authority),
{
}

/// `FinalizeEscrow` is accepted exactly on the requests that
/// [`finalize_accepted`] describes.
pub proof fn lemma_finalize_accepted(accounts: Seq<AccountView>, authority: Option<(Seq<u8>, u8)>)
    ensures
        finalize_decision(accounts, authority) is Ok <==> finalize_accepted(accounts, authority),
{
}

/// `InitEscrow` on a live record is never accepted, whatever else it is
/// handed. Where the record is reached, that is where the initializer has
/// signed, the receiving account belongs to the token program and the rent
/// oracle finds the escrow account exempt, the error is
/// `AlreadyInitialized`, of the class `State`.
pub proof fn lemma_init_rejects_live_record(
    accounts: Seq<AccountView>,
    amount: u64,
    authority: Option<(Seq<u8>, u8)>,
)
    requires
        accounts.len() > INIT_ESCROW_ACCOUNT,
        accounts[INIT_ESCROW_ACCOUNT as int].data.len() == Escrow::LEN,
        unpacked(accounts[INIT_ESCROW_ACCOUNT as int].data).is_initialized,
    ensures
        init_decision(accounts, amount, authority) is Err,
        ({
            let escrow = accounts[INIT_ESCROW_ACCOUNT as int];
            &&& accounts[INIT_INITIALIZER as int].is_signer
            &&& accounts[INIT_RECEIVING_ACCOUNT as int].owner == token_program_id()
            &&& accounts.len() > INIT_RENT_ORACLE
            &&& rent_verdict(
                accounts[INIT_RENT_ORACLE as int],
                escrow.lamports,
                escrow.data.len() as usize,
            ) == Some(true)
        }) ==> {
            &&& init_decision(accounts, amount, authority) == Err::<TransitionView, EscrowError>(
                EscrowError::AlreadyInitialized,
            )
            &&& EscrowError::AlreadyInitialized.class() == ErrorClass::State
        },
{
}

/// A record that `InitEscrow` has stored cannot be initialized again: the
/// same request, and any other on the same escrow account, is rejected.
pub proof fn lemma_init_only_once(
    accounts: Seq<AccountView>,
    amount: u64,
    authority: Option<(Seq<u8>, u8)>,
    later: Seq<AccountView>,
    later_amount: u64,
    later_authority: Option<(Seq<u8>, u8)>,
)
    requires
        accounts_well_formed(accounts),
        init_decision(accounts, amount, authority) is Ok,
        later.len() > INIT_ESCROW_ACCOUNT,
        later[INIT_ESCROW_ACCOUNT as int].data == committed(
            accounts,
            init_decision(accounts, amount, authority)->Ok_0,
        )[INIT_ESCROW_ACCOUNT as int].data,
    ensures
        init_decision(later, later_amount, later_authority) is Err,
        later == committed(accounts, init_decision(accounts, amount, authority)->Ok_0)
            ==> init_decision(later, later_amount, later_authority) == Err::<
            TransitionView,
            EscrowError,
        >(EscrowError::AlreadyInitialized),
{
    let transition = init_decision(accounts, amount, authority)->Ok_0;
    lemma_unpack_pack(transition.record);
    lemma_init_rejects_live_record(later, later_amount, later_authority);
}

/// `FinalizeEscrow` with a receiving account other than the recorded one is
/// rejected with `ProtocolViolation`, of the class `State`, even if every
/// other account is in order: the taker has signed, the taker's accounts
/// belong to the token program, the holding account is an initialized token
/// account, and the escrow account holds a record.
pub proof fn lemma_finalize_rejects_other_receiver(
    accounts: Seq<AccountView>,
    authority: Option<(Seq<u8>, u8)>,
)
    requires
        accounts.len() > FIN_ESCROW_ACCOUNT,
        accounts[FIN_TAKER as int].is_signer,
        accounts[FIN_TAKER_SEND_ACCOUNT as int].owner == token_program_id(),
        accounts[FIN_TAKER_RECEIVE_ACCOUNT as int].owner == token_program_id(),
        token_amount(accounts[FIN_TEMP_ACCOUNT as int].data) is Some,
        accounts[FIN_ESCROW_ACCOUNT as int].data.len() == Escrow::LEN,
        unpacked(accounts[FIN_ESCROW_ACCOUNT as int].data).receiving_account
            != accounts[FIN_RECEIVING_ACCOUNT as int].key,
    ensures
        finalize_decision(accounts, authority) == Err::<TransitionView, EscrowError>(
            EscrowError::ProtocolViolation,
        ),
        EscrowError::ProtocolViolation.class() == ErrorClass::State,
{
}

/// An accepted `FinalizeEscrow` asks for exactly two transfers in the name
/// of the derived authority. The first moves the balance that the holding
/// account holds at the time of the call, whatever amount the record
/// expects, from the recorded holding account to the taker. The second
/// moves the amount the record expects from the taker to the initializer's
/// receiving account.
pub proof fn lemma_release_tracks_balance(
    accounts: Seq<AccountView>,
    authority: Option<(Seq<u8>, u8)>,
)
    requires
        finalize_decision(accounts, authority) is Ok,
    ensures
        authority is Some,
        token_amount(accounts[FIN_TEMP_ACCOUNT as int].data) is Some,
        ({
            let transition = finalize_decision(accounts, authority)->Ok_0;
            let record = unpacked(accounts[FIN_ESCROW_ACCOUNT as int].data);
            let balance = token_amount(accounts[FIN_TEMP_ACCOUNT as int].data)->Some_0;
            let (authority_key, bump) = authority->Some_0;
            let release = transition.calls[0];
            let payment = transition.calls[1];
            &&& transition.calls.len() == 2
            &&& release.authority_bump == Some(bump)
            &&& payment.authority_bump == Some(bump)
            &&& release.instruction == transfer_instruction(
                token_program_id(),
                record.temp_account,
                accounts[FIN_TAKER_RECEIVE_ACCOUNT as int].key,
                authority_key,
                balance,
            )
            &&& payment.instruction == transfer_instruction(
                token_program_id(),
                accounts[FIN_TAKER_SEND_ACCOUNT as int].key,
                record.receiving_account,
                authority_key,
                record.expected_amount,
            )
            &&& amount_in(release.instruction) == balance
            &&& amount_in(payment.instruction) == record.expected_amount
        }),
{
    let record = unpacked(accounts[FIN_ESCROW_ACCOUNT as int].data);
    let balance = token_amount(accounts[FIN_TEMP_ACCOUNT as int].data)->Some_0;
    let (authority_key, bump) = authority->Some_0;
    lemma_amount_in(
        token_program_id(),
        record.temp_account,
        accounts[FIN_TAKER_RECEIVE_ACCOUNT as int].key,
        authority_key,
        balance,
    );
    lemma_amount_in(
        token_program_id(),
        accounts[FIN_TAKER_SEND_ACCOUNT as int].key,
        record.receiving_account,
        authority_key,
        record.expected_amount,
    );
}

/// `FinalizeEscrow` on a record that is not live, a closed one among them,
/// is never accepted. Where the record is reached, the error is
/// `ProtocolViolation`, of the class `State`.
pub proof fn lemma_finalize_rejects_closed_record(
    accounts: Seq<AccountView>,
    authority: Option<(Seq<u8>, u8)>,
)
    requires
        accounts.len() > FIN_ESCROW_ACCOUNT,
        accounts[FIN_ESCROW_ACCOUNT as int].data.len() == Escrow::LEN,
        !unpacked(accounts[FIN_ESCROW_ACCOUNT as int].data).is_initialized,
    ensures
        finalize_decision(accounts, authority) is Err,
        ({
            &&& accounts[FIN_TAKER as int].is_signer
            &&& accounts[FIN_TAKER_SEND_ACCOUNT as int].owner == token_program_id()
            &&& accounts[FIN_TAKER_RECEIVE_ACCOUNT as int].owner == token_program_id()
            &&& token_amount(accounts[FIN_TEMP_ACCOUNT as int].data) is Some
        }) ==> {
            &&& finalize_decision(accounts, authority) == Err::<TransitionView, EscrowError>(
                EscrowError::ProtocolViolation,
            )
            &&& EscrowError::ProtocolViolation.class() == ErrorClass::State
        },
{
}

/// An accepted `FinalizeEscrow` closes the record: the escrow account holds
/// 105 zero bytes afterwards, and no other account has changed. The same
/// request on the accounts as it left them is rejected with
/// `ProtocolViolation`, and asks for no transfer.
pub proof fn lemma_finalize_only_once(accounts: Seq<AccountView>, authority: Option<(Seq<u8>, u8)>)
    requires
        finalize_decision(accounts, authority) is Ok,
    ensures
        ({
            let after = committed(accounts, finalize_decision(accounts, authority)->Ok_0);
            &&& after.len() == accounts.len()
            &&& forall|i: int|
                0 <= i < accounts.len() && i != FIN_ESCROW_ACCOUNT ==> after[i] == accounts[i]
            &&& after[FIN_ESCROW_ACCOUNT as int].data == Seq::new(
                Escrow::LEN as nat,
                |i: int| 0u8,
            )
            &&& unpacked(after[FIN_ESCROW_ACCOUNT as int].data) == EscrowView::closed()
            &&& finalize_decision(after, authority) == Err::<TransitionView, EscrowError>(
                EscrowError::ProtocolViolation,
            )
        }),
{
    lemma_closed_is_zeroed();
    let after = committed(accounts, finalize_decision(accounts, authority)->Ok_0);
    assert(after[FIN_ESCROW_ACCOUNT as int].data == packed(EscrowView::closed()));
    lemma_finalize_rejects_closed_record(after, authority);
}

/// A caller that has not signed is rejected in either phase with
/// `MissingSignature`, of the class `Authorization`, whatever the accounts
/// hold and however many there are; so is every instruction that decodes.
pub proof fn lemma_unsigned_caller_rejected(
    accounts: Seq<AccountView>,
    amount: u64,
    authority: Option<(Seq<u8>, u8)>,
    instruction_data: Seq<u8>,
)
    requires
        accounts.len() > 0,
        !accounts[0].is_signer,
    ensures
        init_decision(accounts, amount, authority) == Err::<TransitionView, EscrowError>(
            EscrowError::MissingSignature,
        ),
        finalize_decision(accounts, authority) == Err::<TransitionView, EscrowError>(
            EscrowError::MissingSignature,
        ),
        decoded(instruction_data) is Some ==> decision(accounts, instruction_data, authority)
            == Err::<TransitionView, EscrowError>(EscrowError::MissingSignature),
        EscrowError::MissingSignature.class() == ErrorClass::Authorization,
{
}

/// A payload that does not decode is rejected with `InvalidInstruction`, of
/// the class `Encoding`, whatever the accounts are; one that decodes is
/// decided by the handler of its phase.
pub proof fn lemma_dispatch(
    accounts: Seq<AccountView>,
    instruction_data: Seq<u8>,
    authority: Option<(Seq<u8>, u8)>,
)
    ensures
        decoded(instruction_data) is None ==> decision(accounts, instruction_data, authority)
            == Err::<TransitionView, EscrowError>(EscrowError::InvalidInstruction),
        decoded(instruction_data) matches Some(EscrowInstruction::InitEscrow { amount })
            ==> decision(accounts, instruction_data, authority) == init_decision(
            accounts,
            amount,
            authority,
        ),
        decoded(instruction_data) matches Some(EscrowInstruction::FinalizeEscrow { amount })
            ==> decision(accounts, instruction_data, authority) == finalize_decision(
            accounts,
            authority,
        ),
        EscrowError::InvalidInstruction.class() == ErrorClass::Encoding,
{
}

} // verus!
