//! The accounts that an instruction is handed.

use vstd::prelude::*;
use crate::error::EscrowError;
use crate::pubkey::Pubkey;

verus! {

/// One account of the list that comes with an instruction, as the handlers
/// read it.
#[derive(Clone, Debug, PartialEq, Eq)]
pub struct Account {
    /// The address of the account.
    pub key: Pubkey,
    /// The program that owns the account.
    pub owner: Pubkey,
    /// Whether the account's key signed the transaction.
    pub is_signer: bool,
    /// The balance of the account, in lamports.
    pub lamports: u64,
    /// The contents of the account.
    pub data: Vec<u8>,
}

/// What an [`Account`] holds, as mathematical values.
pub struct AccountView {
    pub key: Seq<u8>,
    pub owner: Seq<u8>,
    pub is_signer: bool,
    pub lamports: u64,
    pub data: Seq<u8>,
}

impl View for Account {
    type V = AccountView;

    open spec fn view(&self) -> AccountView {
        AccountView {
            key: self.key@,
            owner: self.owner@,
            is_signer: self.is_signer,
            lamports: self.lamports,
            data: self.data@,
        }
    }
}

/// The views of the accounts of a list, in order.
pub open spec fn account_views(accounts: Seq<Account>) -> Seq<AccountView> {
    Seq::new(accounts.len(), |i: int| accounts[i]@)
}

/// Every address in the list has 32 bytes.
pub open spec fn accounts_well_formed(accounts: Seq<AccountView>) -> bool {
    forall|i: int|
        0 <= i < accounts.len() ==> (#[trigger] accounts[i]).key.len() == 32 && accounts[i].owner.len()
            == 32
}

/// The views of a list of accounts are well formed.
pub proof fn lemma_account_views_well_formed(accounts: Seq<Account>)
    ensures
        accounts_well_formed(account_views(accounts)),
        account_views(accounts).len() == accounts.len(),
{
}

/// Hands out the accounts of a list one at a time, in order.
///
/// `next` is the position of the account to hand out. If the list has an
/// account there, it is returned and `next` moves on by one; if the list has
/// ended, the call fails and `next` stays.
pub fn next_account_info<'a>(accounts: &'a [Account], next: &mut usize) -> (r: Result<
    &'a Account,
    EscrowError,
>)
    ensures
        *old(next) < accounts@.len() ==> r == Ok::<&Account, EscrowError>(&accounts@[*old(next) as int])
            && *final(next) == *old(next) + 1,
        *old(next) >= accounts@.len() ==> r == Err::<&Account, EscrowError>(
            EscrowError::NotEnoughAccounts,
        ) && *final(next) == *old(next),
{
    if *next < accounts.len() {
        let account = &accounts[*next];
        *next = *next + 1;
        Ok(account)
    } else {
        Err(EscrowError::NotEnoughAccounts)
    }
}

} // verus!
