//! The ledger itself: account registration, balances, the global total
//! supply, and the overflow-safe debit/credit/transfer primitives.

use vstd::prelude::*;

use crate::error::Error;
use crate::model::{
    balance_in, index_of, is_registered, lemma_index_of, lemma_push_entry, lemma_remove_entry,
    lemma_sum_le, lemma_sum_push, lemma_sum_remove, lemma_sum_update, lemma_update_entry,
    sum_balances, uniq_keys,
};

verus! {

/// A fungible-value ledger.
///
/// Each entry pairs an account identifier with its balance; the existence of
/// an entry means the account is registered (distinct from a registered
/// account holding zero). The total supply always equals the sum of all
/// registered balances.
pub struct FungibleToken {
    /// Registered accounts and their balances, with pairwise-distinct
    /// identifiers.
    pub(crate) accounts: Vec<(String, u128)>,
    /// Total supply of the token.
    pub(crate) total_supply: u128,
    /// The storage size in bytes of one account entry.
    pub(crate) account_storage_usage: u64,
    /// The cost of one byte of storage, in payment units.
    pub(crate) storage_byte_cost: u128,
}

/// The observable record of a completed transfer: the auditable log line a
/// caller may emit.
#[derive(Clone, Debug)]
pub struct TransferRecord {
    pub sender_id: String,
    pub receiver_id: String,
    pub amount: u128,
    pub memo: Option<String>,
}

impl View for FungibleToken {
    type V = Seq<(String, u128)>;

    closed spec fn view(&self) -> Seq<(String, u128)> {
        self.accounts@
    }
}

impl FungibleToken {
    /// The global total-supply counter.
    pub closed spec fn spec_total_supply(&self) -> u128 {
        self.total_supply
    }

    /// The storage configuration: bytes per account entry and cost per byte.
    pub closed spec fn spec_storage_config(&self) -> (u64, u128) {
        (self.account_storage_usage, self.storage_byte_cost)
    }

    /// The payment required to hold one ledger entry.
    pub open spec fn spec_minimum_balance(&self) -> int {
        self.spec_storage_config().0 * self.spec_storage_config().1
    }

    /// The account is registered.
    pub open spec fn spec_registered(&self, id: Seq<char>) -> bool {
        is_registered(self@, id)
    }

    /// The account's balance, zero if unregistered.
    pub open spec fn spec_balance_of(&self, id: Seq<char>) -> u128 {
        balance_in(self@, id)
    }

    /// The central consistency invariant: account identifiers are distinct
    /// and the total supply equals the sum of all registered balances. It
    /// holds after every operation, including rejected ones.
    pub open spec fn wf(&self) -> bool {
        &&& uniq_keys(self@)
        &&& sum_balances(self@) == self.spec_total_supply()
        &&& self.spec_minimum_balance() <= u128::MAX
    }

    /// Creates an empty ledger: no accounts, zero total supply.
    ///
    /// The storage parameters come from the host: the measured size in bytes
    /// of one account entry, and the per-byte storage cost.
    pub fn new(account_storage_usage: u64, storage_byte_cost: u128) -> (token: Self)
        requires
            account_storage_usage * storage_byte_cost <= u128::MAX,
        ensures
            token.wf(),
            token.spec_total_supply() == 0,
            forall|id: Seq<char>| !token.spec_registered(id),
            token.spec_storage_config() == (account_storage_usage, storage_byte_cost),
    {
        let token = FungibleToken {
            accounts: Vec::new(),
            total_supply: 0,
            account_storage_usage,
            storage_byte_cost,
        };
        proof {
            assert(token@.len() == 0);
            assert forall|id: Seq<char>| !token.spec_registered(id) by {
                if token.spec_registered(id) {
                    let i = index_of(token@, id);
                    assert(0 <= i < token@.len());
                }
            }
        }
        token
    }

    /// The position of the account's entry, if registered.
    pub(crate) fn find_index(&self, account_id: &String) -> (r: Option<usize>)
        ensures
            match r {
                Some(i) => 0 <= i < self@.len() && self@[i as int].0@ == account_id@
                    && is_registered(self@, account_id@),
                None => !is_registered(self@, account_id@),
            },
    {
        let n = self.accounts.len();
        let mut i: usize = 0;
        while i < n
            invariant
                n == self@.len(),
                i <= n,
                forall|k: int| 0 <= k < i ==> self@[k].0@ != account_id@,
            decreases n - i,
        {
            let entry = &self.accounts[i];
            if entry.0 == *account_id {
                proof {
                    assert(is_registered(self@, account_id@)) by {
                        assert(0 <= i < self@.len() && self@[i as int].0@ == account_id@);
                    }
                }
                return Some(i);
            }
            i += 1;
        }
        proof {
            assert(!is_registered(self@, account_id@)) by {
                if is_registered(self@, account_id@) {
                    let k = index_of(self@, account_id@);
                    assert(0 <= k < self@.len() && self@[k].0@ == account_id@);
                }
            }
        }
        None
    }

    /// The error a transfer of `amount` from `sender` to `receiver` is
    /// rejected with on this ledger, or `None` when it must succeed.
    ///
    /// Validation order: self-transfer, zero amount, sender registration,
    /// sender funds, receiver registration. Crediting the receiver cannot
    /// overflow: the invariant bounds its balance by the total supply.
    pub open spec fn spec_transfer_error(
        &self,
        sender: Seq<char>,
        receiver: Seq<char>,
        amount: u128,
    ) -> Option<Error> {
        if sender == receiver {
            Some(Error::SelfTransfer)
        } else if amount == 0 {
            Some(Error::ZeroAmount)
        } else if !self.spec_registered(sender) {
            Some(Error::NotRegistered)
        } else if amount > self.spec_balance_of(sender) {
            Some(Error::InsufficientBalance)
        } else if !self.spec_registered(receiver) {
            Some(Error::NotRegistered)
        } else {
            None
        }
    }

    /// Both effects of a transfer are observed: the sender's balance shrank
    /// by `amount`, the receiver's grew by `amount`, and nothing else moved.
    pub open spec fn spec_transfer_applied(
        pre: Self,
        post: Self,
        sender: Seq<char>,
        receiver: Seq<char>,
        amount: u128,
    ) -> bool {
        &&& post.spec_balance_of(sender) == pre.spec_balance_of(sender) - amount
        &&& post.spec_balance_of(receiver) == pre.spec_balance_of(receiver) + amount
        &&& post.spec_total_supply() == pre.spec_total_supply()
        &&& forall|a: Seq<char>|
            a != sender && a != receiver ==> post.spec_balance_of(a) == pre.spec_balance_of(a)
        &&& forall|a: Seq<char>| post.spec_registered(a) == pre.spec_registered(a)
        &&& post.spec_storage_config() == pre.spec_storage_config()
    }

    /// Credits `amount` to a registered account, growing the total supply
    /// with it. Rejected with `Overflow` if the balance or the total supply
    /// would leave the 128-bit range; nothing changes on rejection.
    pub fn internal_deposit(&mut self, account_id: &String, amount: u128) -> (r: Result<(), Error>)
        requires
            old(self).wf(),
        ensures
            final(self).wf(),
            match r {
                Ok(()) => {
                    &&& old(self).spec_registered(account_id@)
                    &&& old(self).spec_balance_of(account_id@) + amount <= u128::MAX
                    &&& old(self).spec_total_supply() + amount <= u128::MAX
                    &&& final(self).spec_balance_of(account_id@) == old(self).spec_balance_of(
                        account_id@,
                    ) + amount
                    &&& final(self).spec_total_supply() == old(self).spec_total_supply() + amount
                    &&& forall|a: Seq<char>|
                        a != account_id@ ==> final(self).spec_balance_of(a) == old(
                            self,
                        ).spec_balance_of(a)
                    &&& forall|a: Seq<char>|
                        final(self).spec_registered(a) == old(self).spec_registered(a)
                    &&& final(self).spec_storage_config() == old(self).spec_storage_config()
                },
                Err(e) => {
                    &&& *final(self) == *old(self)
                    &&& (e == Error::NotRegistered <==> !old(self).spec_registered(account_id@))
                    &&& (e == Error::Overflow <==> old(self).spec_registered(account_id@) && (old(
                        self,
                    ).spec_balance_of(account_id@) + amount > u128::MAX || old(
                        self,
                    ).spec_total_supply() + amount > u128::MAX))
                    &&& (e == Error::NotRegistered || e == Error::Overflow)
                },
            },
    {
        match self.find_index(account_id) {
            None => Err(Error::NotRegistered),
            Some(i) => {
                proof {
                    lemma_index_of(self@, i as int);
                }
                let bal = self.accounts[i].1;
                if amount > u128::MAX - bal {
                    return Err(Error::Overflow);
                }
                if amount > u128::MAX - self.total_supply {
                    return Err(Error::Overflow);
                }
                let name = self.accounts[i].0.clone();
                self.accounts[i] = (name, bal + amount);
                proof {
                    lemma_update_entry(old(self)@, i as int, self@[i as int]);
                    lemma_sum_update(old(self)@, i as int, self@[i as int]);
                }
                self.total_supply = self.total_supply + amount;
                Ok(())
            },
        }
    }

    /// Debits `amount` from a registered account, shrinking the total supply
    /// with it. Rejected with `InsufficientBalance` if the account holds
    /// less than `amount`; nothing changes on rejection.
    pub fn internal_withdraw(&mut self, account_id: &String, amount: u128) -> (r: Result<
        (),
        Error,
    >)
        requires
            old(self).wf(),
        ensures
            final(self).wf(),
            match r {
                Ok(()) => {
                    &&& old(self).spec_registered(account_id@)
                    &&& amount <= old(self).spec_balance_of(account_id@)
                    &&& final(self).spec_balance_of(account_id@) == old(self).spec_balance_of(
                        account_id@,
                    ) - amount
                    &&& final(self).spec_total_supply() == old(self).spec_total_supply() - amount
                    &&& forall|a: Seq<char>|
                        a != account_id@ ==> final(self).spec_balance_of(a) == old(
                            self,
                        ).spec_balance_of(a)
                    &&& forall|a: Seq<char>|
                        final(self).spec_registered(a) == old(self).spec_registered(a)
                    &&& final(self).spec_storage_config() == old(self).spec_storage_config()
                },
                Err(e) => {
                    &&& *final(self) == *old(self)
                    &&& (e == Error::NotRegistered <==> !old(self).spec_registered(account_id@))
                    &&& (e == Error::InsufficientBalance <==> old(self).spec_registered(account_id@)
                        && amount > old(self).spec_balance_of(account_id@))
                    &&& (e == Error::NotRegistered || e == Error::InsufficientBalance)
                },
            },
    {
        match self.find_index(account_id) {
            None => Err(Error::NotRegistered),
            Some(i) => {
                proof {
                    lemma_index_of(self@, i as int);
                }
                let bal = self.accounts[i].1;
                if amount > bal {
                    return Err(Error::InsufficientBalance);
                }
                proof {
                    lemma_sum_le(self@, i as int);
                }
                let name = self.accounts[i].0.clone();
                self.accounts[i] = (name, bal - amount);
                proof {
                    lemma_update_entry(old(self)@, i as int, self@[i as int]);
                    lemma_sum_update(old(self)@, i as int, self@[i as int]);
                }
                self.total_supply = self.total_supply - amount;
                Ok(())
            },
        }
    }

    /// Creates a zero-balance entry for the account.
    pub fn internal_register_account(&mut self, account_id: &String) -> (r: Result<(), Error>)
        requires
            old(self).wf(),
        ensures
            final(self).wf(),
            match r {
                Ok(()) => {
                    &&& !old(self).spec_registered(account_id@)
                    &&& final(self).spec_registered(account_id@)
                    &&& final(self).spec_balance_of(account_id@) == 0
                    &&& forall|a: Seq<char>|
                        a != account_id@ ==> final(self).spec_registered(a) == old(
                            self,
                        ).spec_registered(a)
                    &&& forall|a: Seq<char>|
                        a != account_id@ ==> final(self).spec_balance_of(a) == old(
                            self,
                        ).spec_balance_of(a)
                    &&& final(self).spec_total_supply() == old(self).spec_total_supply()
                    &&& final(self).spec_storage_config() == old(self).spec_storage_config()
                },
                Err(e) => {
                    &&& e == Error::AlreadyRegistered
                    &&& old(self).spec_registered(account_id@)
                    &&& *final(self) == *old(self)
                },
            },
    {
        match self.find_index(account_id) {
            Some(_) => Err(Error::AlreadyRegistered),
            None => {
                let entry = (account_id.clone(), 0u128);
                self.accounts.push(entry);
                proof {
                    lemma_push_entry(old(self)@, self@[self@.len() - 1]);
                    lemma_sum_push(old(self)@, self@[self@.len() - 1]);
                }
                Ok(())
            },
        }
    }

    /// Removes the account's entry. An entry holding value cannot be
    /// removed: that would destroy it.
    pub fn internal_deregister_account(&mut self, account_id: &String) -> (r: Result<(), Error>)
        requires
            old(self).wf(),
        ensures
            final(self).wf(),
            match r {
                Ok(()) => {
                    &&& old(self).spec_registered(account_id@)
                    &&& old(self).spec_balance_of(account_id@) == 0
                    &&& !final(self).spec_registered(account_id@)
                    &&& forall|a: Seq<char>|
                        a != account_id@ ==> final(self).spec_registered(a) == old(
                            self,
                        ).spec_registered(a)
                    &&& forall|a: Seq<char>|
                        a != account_id@ ==> final(self).spec_balance_of(a) == old(
                            self,
                        ).spec_balance_of(a)
                    &&& final(self).spec_total_supply() == old(self).spec_total_supply()
                    &&& final(self).spec_storage_config() == old(self).spec_storage_config()
                },
                Err(e) => {
                    &&& *final(self) == *old(self)
                    &&& (e == Error::NotRegistered <==> !old(self).spec_registered(account_id@))
                    &&& (e == Error::NonZeroBalance <==> old(self).spec_registered(account_id@)
                        && old(self).spec_balance_of(account_id@) > 0)
                    &&& (e == Error::NotRegistered || e == Error::NonZeroBalance)
                },
            },
    {
        match self.find_index(account_id) {
            None => Err(Error::NotRegistered),
            Some(i) => {
                proof {
                    lemma_index_of(self@, i as int);
                }
                let bal = self.accounts[i].1;
                if bal > 0 {
                    return Err(Error::NonZeroBalance);
                }
                self.accounts.remove(i);
                proof {
                    lemma_remove_entry(old(self)@, i as int);
                    lemma_sum_remove(old(self)@, i as int);
                }
                Ok(())
            },
        }
    }

    /// Moves `amount` from `sender_id` to `receiver_id` atomically: either
    /// both the debit and the credit take effect, or neither does. Returns
    /// the observable transfer record on success.
    pub fn internal_transfer(
        &mut self,
        sender_id: &String,
        receiver_id: &String,
        amount: u128,
        memo: Option<String>,
    ) -> (r: Result<TransferRecord, Error>)
        requires
            old(self).wf(),
        ensures
            final(self).wf(),
            match r {
                Ok(rec) => {
                    &&& old(self).spec_transfer_error(sender_id@, receiver_id@, amount) is None
                    &&& Self::spec_transfer_applied(
                        *old(self),
                        *final(self),
                        sender_id@,
                        receiver_id@,
                        amount,
                    )
                    &&& rec.sender_id@ == sender_id@
                    &&& rec.receiver_id@ == receiver_id@
                    &&& rec.amount == amount
                    &&& rec.memo == memo
                },
                Err(e) => {
                    &&& old(self).spec_transfer_error(sender_id@, receiver_id@, amount) == Some(e)
                    &&& *final(self) == *old(self)
                },
            },
    {
        if *sender_id == *receiver_id {
            return Err(Error::SelfTransfer);
        }
        if amount == 0 {
            return Err(Error::ZeroAmount);
        }
        let sender_index = match self.find_index(sender_id) {
            None => {
                return Err(Error::NotRegistered);
            },
            Some(i) => i,
        };
        proof {
            lemma_index_of(self@, sender_index as int);
        }
        if amount > self.accounts[sender_index].1 {
            return Err(Error::InsufficientBalance);
        }
        if let None = self.find_index(receiver_id) {
            return Err(Error::NotRegistered);
        }
        match self.internal_withdraw(sender_id, amount) {
            Err(e) => {
                proof {
                    assert(false);
                }
                Err(e)
            },
            Ok(()) => {
                proof {
                    crate::model::lemma_balance_le_sum(self@, receiver_id@);
                }
                match self.internal_deposit(receiver_id, amount) {
                    Err(e) => {
                        proof {
                            assert(false);
                        }
                        Err(e)
                    },
                    Ok(()) => Ok(
                        TransferRecord {
                            sender_id: sender_id.clone(),
                            receiver_id: receiver_id.clone(),
                            amount,
                            memo,
                        },
                    ),
                }
            },
        }
    }

    /// The balance stored in the entry at position `i`.
    pub(crate) fn entry_balance(&self, i: usize) -> (r: u128)
        requires
            i < self@.len(),
        ensures
            r == self@[i as int].1,
    {
        self.accounts[i].1
    }

    /// Replaces the balance of the entry at position `i`, keeping its
    /// identifier and leaving the total-supply counter alone.
    pub(crate) fn set_entry_balance(&mut self, i: usize, balance: u128)
        requires
            i < old(self)@.len(),
        ensures
            final(self)@ == old(self)@.update(i as int, (old(self)@[i as int].0, balance)),
            final(self).spec_total_supply() == old(self).spec_total_supply(),
            final(self).spec_storage_config() == old(self).spec_storage_config(),
    {
        let name = self.accounts[i].0.clone();
        self.accounts[i] = (name, balance);
    }

    /// The storage configuration the ledger was created with.
    pub(crate) fn storage_config(&self) -> (r: (u64, u128))
        ensures
            r == self.spec_storage_config(),
    {
        (self.account_storage_usage, self.storage_byte_cost)
    }

    /// Shrinks the total-supply counter without touching any entry: the
    /// irreversible burn.
    pub(crate) fn debit_total_supply(&mut self, amount: u128)
        requires
            amount <= old(self).spec_total_supply(),
        ensures
            final(self)@ == old(self)@,
            final(self).spec_total_supply() == old(self).spec_total_supply() - amount,
            final(self).spec_storage_config() == old(self).spec_storage_config(),
    {
        self.total_supply = self.total_supply - amount;
    }

    /// The synchronous, single-phase transfer entry point.
    ///
    /// Callers confirm the payment of exactly one attached unit, so that an
    /// accidental duplicate or unsigned submission cannot move value.
    pub fn ft_transfer(
        &mut self,
        sender_id: &String,
        attached_deposit: u128,
        receiver_id: &String,
        amount: u128,
        memo: Option<String>,
    ) -> (r: Result<TransferRecord, Error>)
        requires
            old(self).wf(),
            attached_deposit == 1,
        ensures
            final(self).wf(),
            match r {
                Ok(rec) => {
                    &&& old(self).spec_transfer_error(sender_id@, receiver_id@, amount) is None
                    &&& Self::spec_transfer_applied(
                        *old(self),
                        *final(self),
                        sender_id@,
                        receiver_id@,
                        amount,
                    )
                    &&& rec.sender_id@ == sender_id@
                    &&& rec.receiver_id@ == receiver_id@
                    &&& rec.amount == amount
                    &&& rec.memo == memo
                },
                Err(e) => {
                    &&& old(self).spec_transfer_error(sender_id@, receiver_id@, amount) == Some(e)
                    &&& *final(self) == *old(self)
                },
            },
    {
        self.internal_transfer(sender_id, receiver_id, amount, memo)
    }

    /// The total supply.
    pub fn ft_total_supply(&self) -> (r: u128)
        ensures
            r == self.spec_total_supply(),
    {
        self.total_supply
    }

    /// The account's balance; zero if the account is unregistered.
    pub fn ft_balance_of(&self, account_id: &String) -> (r: u128)
        requires
            self.wf(),
        ensures
            r == self.spec_balance_of(account_id@),
    {
        match self.find_index(account_id) {
            Some(i) => {
                let entry = &self.accounts[i];
                proof {
                    lemma_index_of(self@, i as int);
                }
                entry.1
            },
            None => 0,
        }
    }
}

/// No operation ever produces a balance below zero or above the total
/// supply: balances are unsigned, and on a well-formed ledger every
/// account's balance is bounded by the total supply.
pub proof fn lemma_balance_le_total_supply(token: FungibleToken, id: Seq<char>)
    requires
        token.wf(),
    ensures
        token.spec_balance_of(id) <= token.spec_total_supply(),
{
    crate::model::lemma_balance_le_sum(token@, id);
}

} // verus!
