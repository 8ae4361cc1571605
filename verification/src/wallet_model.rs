use vstd::prelude::*;

use crate::account::Account;
use crate::wallet::WalletStatus;

verus! {

/// A wallet's status and its public accounts.
#[derive(Debug, PartialEq, Eq)]
pub struct WalletModel {
    pub status: WalletStatus,
    pub accounts: Vec<Account>,
}

impl Clone for WalletModel {
    fn clone(&self) -> (copy: Self)
        ensures
            copy.status == self.status,
            copy.accounts@ == self.accounts@,
    {
        WalletModel { status: self.status, accounts: self.accounts.clone() }
    }
}

impl WalletModel {
    pub fn new_empty() -> (wallet: Self)
        ensures
            wallet.status == WalletStatus::NoWallet,
            wallet.accounts@ == Seq::<Account>::empty(),
    {
        WalletModel { status: WalletStatus::NoWallet, accounts: Vec::new() }
    }

    pub fn account_count(&self) -> (count: usize)
        ensures
            count == self.accounts@.len(),
    {
        self.accounts.len()
    }

    /// Locks the wallet; the accounts stay.
    pub fn lock(&mut self)
        ensures
            final(self).status == WalletStatus::Locked,
            final(self).accounts@ == old(self).accounts@,
    {
        self.status = WalletStatus::Locked;
    }

    /// Unlocks the wallet; the accounts stay.
    pub fn unlock(&mut self)
        ensures
            final(self).status == WalletStatus::Unlocked,
            final(self).accounts@ == old(self).accounts@,
    {
        self.status = WalletStatus::Unlocked;
    }

    /// Forgets every account and returns to having no wallet.
    pub fn clear(&mut self)
        ensures
            final(self).status == WalletStatus::NoWallet,
            final(self).accounts@ == Seq::<Account>::empty(),
    {
        self.status = WalletStatus::NoWallet;
        self.accounts.clear();
    }

    /// Appends an account; the status stays.
    pub fn add_account(&mut self, account: Account)
        ensures
            final(self).status == old(self).status,
            final(self).accounts@ == old(self).accounts@.push(account),
    {
        self.accounts.push(account);
    }
}

} // verus!
