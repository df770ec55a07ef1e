//! Accounts as the program sees them: plain values, one per position of the
//! account list that a call is handed.

use vstd::prelude::*;
use crate::address::Address;

verus! {

/// One account of the list that a call is handed.
#[derive(Clone, Debug, PartialEq, Eq)]
pub struct Account {
    /// The identity of the account.
    pub key: Address,
    /// The program that owns the account.
    pub owner: Address,
    /// Whether the call was signed by this account.
    pub is_signer: bool,
    /// The backing balance of the account.
    pub lamports: u64,
    /// What the account stores.
    pub data: Vec<u8>,
}

/// An account, with its storage as a sequence of bytes.
pub struct AccountView {
    pub key: Address,
    pub owner: Address,
    pub is_signer: bool,
    pub lamports: u64,
    pub data: Seq<u8>,
}

impl View for Account {
    type V = AccountView;

    open spec fn view(&self) -> AccountView {
        AccountView {
            key: self.key,
            owner: self.owner,
            is_signer: self.is_signer,
            lamports: self.lamports,
            data: self.data@,
        }
    }
}

/// The views of a list of accounts, position by position.
pub open spec fn views(accounts: Seq<Account>) -> Seq<AccountView> {
    accounts.map_values(|a: Account| a@)
}

impl Account {
    pub fn new(key: Address, owner: Address, is_signer: bool, lamports: u64, data: Vec<u8>) -> (a: Account)
        ensures
            a@ == (AccountView { key, owner, is_signer, lamports, data: data@ }),
    {
        Account { key, owner, is_signer, lamports, data }
    }
}

} // verus!
