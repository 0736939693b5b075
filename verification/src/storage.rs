//! The per-account storage deposit: holding a ledger entry costs a fixed
//! deposit, paid on registration and returned on deregistration.

use vstd::prelude::*;

use crate::error::Error;
use crate::model::lemma_index_of;
use crate::token::FungibleToken;

verus! {

/// An account's storage balance: what it has deposited in all, and what it
/// could withdraw right now.
#[derive(Clone, Copy, Debug, PartialEq, Eq, Structural)]
pub struct AccountStorageBalance {
    pub total: u128,
    pub available: u128,
}

impl FungibleToken {
    /// The deposit required to hold one ledger entry: the entry's size in
    /// bytes times the cost per byte.
    pub fn storage_minimum_balance(&self) -> (r: u128)
        requires
            self.wf(),
        ensures
            r == self.spec_minimum_balance(),
    {
        let (usage, byte_cost) = self.storage_config();
        (usage as u128) * byte_cost
    }

    /// Registers the account against an attached payment, which must equal
    /// the storage minimum balance exactly.
    pub fn storage_deposit(&mut self, attached_deposit: u128, account_id: &String) -> (r: Result<
        AccountStorageBalance,
        Error,
    >)
        requires
            old(self).wf(),
        ensures
            final(self).wf(),
            match r {
                Ok(balance) => {
                    &&& attached_deposit == old(self).spec_minimum_balance()
                    &&& !old(self).spec_registered(account_id@)
                    &&& balance == (AccountStorageBalance {
                        total: attached_deposit,
                        available: attached_deposit,
                    })
                    &&& final(self).spec_registered(account_id@)
                    &&& final(self).spec_balance_of(account_id@) == 0
                    &&& forall|a: Seq<char>|
                        a != account_id@ ==> final(self).spec_registered(a) == old(
                            self,
                        ).spec_registered(a)
                    &&& forall|a: Seq<char>|
                        a != account_id@ ==> final(self).spec_balance_of(a) == old(
                            self,
                        ).spec_balance_of(a)
                    &&& final(self).spec_total_supply() == old(self).spec_total_supply()
                    &&& final(self).spec_storage_config() == old(self).spec_storage_config()
                },
                Err(e) => {
                    &&& *final(self) == *old(self)
                    &&& (e == Error::WrongDepositAmount <==> attached_deposit != old(
                        self,
                    ).spec_minimum_balance())
                    &&& (e == Error::AlreadyRegistered <==> attached_deposit == old(
                        self,
                    ).spec_minimum_balance() && old(self).spec_registered(account_id@))
                    &&& (e == Error::WrongDepositAmount || e == Error::AlreadyRegistered)
                },
            },
    {
        let minimum = self.storage_minimum_balance();
        if attached_deposit != minimum {
            return Err(Error::WrongDepositAmount);
        }
        match self.internal_register_account(account_id) {
            Err(e) => Err(e),
            Ok(()) => Ok(
                AccountStorageBalance { total: attached_deposit, available: attached_deposit },
            ),
        }
    }

    /// Deregisters the caller's account and releases its deposit. Callers
    /// confirm the payment of exactly one attached unit and name the exact
    /// storage minimum balance as the amount to withdraw.
    pub fn storage_withdraw(&mut self, attached_deposit: u128, amount: u128, account_id: &String)
        -> (r: Result<AccountStorageBalance, Error>)
        requires
            old(self).wf(),
            attached_deposit == 1,
            amount == old(self).spec_minimum_balance(),
        ensures
            final(self).wf(),
            match r {
                Ok(balance) => {
                    &&& balance == (AccountStorageBalance { total: 0, available: 0 })
                    &&& old(self).spec_registered(account_id@)
                    &&& old(self).spec_balance_of(account_id@) == 0
                    &&& !final(self).spec_registered(account_id@)
                    &&& forall|a: Seq<char>|
                        a != account_id@ ==> final(self).spec_registered(a) == old(
                            self,
                        ).spec_registered(a)
                    &&& forall|a: Seq<char>|
                        a != account_id@ ==> final(self).spec_balance_of(a) == old(
                            self,
                        ).spec_balance_of(a)
                    &&& final(self).spec_total_supply() == old(self).spec_total_supply()
                    &&& final(self).spec_storage_config() == old(self).spec_storage_config()
                },
                Err(e) => {
                    &&& *final(self) == *old(self)
                    &&& (e == Error::NotRegistered <==> !old(self).spec_registered(account_id@))
                    &&& (e == Error::NonZeroBalance <==> old(self).spec_registered(account_id@)
                        && old(self).spec_balance_of(account_id@) > 0)
                    &&& (e == Error::NotRegistered || e == Error::NonZeroBalance)
                },
            },
    {
        match self.internal_deregister_account(account_id) {
            Err(e) => Err(e),
            Ok(()) => Ok(AccountStorageBalance { total: 0, available: 0 }),
        }
    }

    /// Reports the account's storage balance: an unregistered account has
    /// none, and a registered account can withdraw its deposit only while it
    /// holds no tokens.
    pub fn storage_balance_of(&self, account_id: &String) -> (r: AccountStorageBalance)
        requires
            self.wf(),
        ensures
            !self.spec_registered(account_id@) ==> r == (AccountStorageBalance {
                total: 0,
                available: 0,
            }),
            self.spec_registered(account_id@) ==> r.total == self.spec_minimum_balance()
                && r.available == if self.spec_balance_of(account_id@) > 0 {
                0int
            } else {
                self.spec_minimum_balance()
            },
    {
        match self.find_index(account_id) {
            None => AccountStorageBalance { total: 0, available: 0 },
            Some(i) => {
                proof {
                    lemma_index_of(self@, i as int);
                }
                let balance = self.entry_balance(i);
                let minimum = self.storage_minimum_balance();
                if balance > 0 {
                    AccountStorageBalance { total: minimum, available: 0 }
                } else {
                    AccountStorageBalance { total: minimum, available: minimum }
                }
            },
        }
    }
}

} // verus!
