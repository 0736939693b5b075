//! The two-phase transfer-and-notify protocol.
//!
//! Phase one moves the full amount with an ordinary transfer and hands the
//! caller a notification to dispatch to the receiver. The receiver reports
//! how much of the amount it did not consume; a single privileged resolution
//! callback then claws back whatever part of that remainder is still on the
//! receiver's balance, refunding it to the sender if the sender is still
//! registered and burning it otherwise.

use vstd::prelude::*;

use crate::error::Error;
use crate::model::{lemma_index_of, lemma_sum_le, lemma_sum_update, lemma_update_entry};
use crate::token::FungibleToken;

verus! {

/// The notification of phase one, to be dispatched to the receiver: it
/// carries the pending settlement `(sender, receiver, amount)` through the
/// asynchronous call, together with the receiver's payload and the memo of
/// the transfer record.
#[derive(Clone, Debug)]
pub struct TransferNotification {
    pub sender_id: String,
    pub receiver_id: String,
    pub amount: u128,
    pub msg: String,
    pub memo: Option<String>,
}

/// What came back from the receiver-side hook: a structured response (raw
/// bytes, possibly malformed) or an explicit failure signal.
pub enum PromiseOutcome {
    Successful(Vec<u8>),
    Failed,
}

/// The effect of one resolution, reported back to the host.
#[derive(Clone, Copy, Debug, PartialEq, Eq, Structural)]
pub struct ResolutionOutcome {
    /// How much of the transferred amount counts as consumed by the receiver.
    pub used_amount: u128,
    /// Value returned to the sender (the refund record).
    pub refunded: u128,
    /// Value removed from the total supply because the sender vanished (the
    /// burn record).
    pub burned: u128,
}

/// The smaller of two amounts.
pub open spec fn spec_min(a: u128, b: u128) -> u128 {
    if a < b {
        a
    } else {
        b
    }
}

/// What a receiver's claim of `reported` unused value is worth: a receiver
/// can never claim to return more than it was sent.
pub open spec fn spec_unused(amount: u128, reported: u128) -> u128 {
    spec_min(amount, reported)
}

/// How much of the unused value can be clawed back: only what is still on
/// the receiver's balance at resolution time.
pub open spec fn spec_refund(receiver_balance: u128, unused: u128) -> u128 {
    spec_min(receiver_balance, unused)
}

/// The unused amount the receiver's response bytes decode to, when they are
/// a well-formed report, and `None` when they are malformed.
pub uninterp spec fn parsed_unused(bytes: Seq<u8>) -> Option<u128>;

/// The unused amount the outcome of the receiver hook reports, before
/// clamping: a failure or a malformed response conservatively counts as
/// "nothing was consumed".
pub open spec fn spec_reported_unused(amount: u128, outcome: PromiseOutcome) -> u128 {
    match outcome {
        PromiseOutcome::Failed => amount,
        PromiseOutcome::Successful(bytes) => match parsed_unused(bytes@) {
            Some(value) => value,
            None => amount,
        },
    }
}

/// The full effect of resolving a settlement of `amount` from `sender` to
/// `receiver` when the receiver claimed `reported` unused value.
pub open spec fn spec_resolution(
    pre: FungibleToken,
    post: FungibleToken,
    sender: Seq<char>,
    receiver: Seq<char>,
    amount: u128,
    reported: u128,
    outcome: ResolutionOutcome,
) -> bool {
    let unused = spec_unused(amount, reported);
    let refund = spec_refund(pre.spec_balance_of(receiver), unused);
    let sender_registered = pre.spec_registered(sender);
    &&& outcome.used_amount == if sender_registered {
        (amount - refund) as u128
    } else {
        amount
    }
    &&& outcome.refunded == if sender_registered {
        refund
    } else {
        0
    }
    &&& outcome.burned == if sender_registered {
        0
    } else {
        refund
    }
    &&& forall|a: Seq<char>| post.spec_registered(a) == pre.spec_registered(a)
    &&& post.spec_storage_config() == pre.spec_storage_config()
    &&& if refund == 0 || sender == receiver {
        &&& forall|a: Seq<char>| post.spec_balance_of(a) == pre.spec_balance_of(a)
        &&& post.spec_total_supply() == pre.spec_total_supply()
    } else {
        &&& post.spec_balance_of(receiver) == pre.spec_balance_of(receiver) - refund
        &&& forall|a: Seq<char>|
            a != sender && a != receiver ==> post.spec_balance_of(a) == pre.spec_balance_of(a)
        &&& if sender_registered {
            &&& post.spec_balance_of(sender) == pre.spec_balance_of(sender) + refund
            &&& post.spec_total_supply() == pre.spec_total_supply()
        } else {
            &&& post.spec_balance_of(sender) == pre.spec_balance_of(sender)
            &&& post.spec_total_supply() == pre.spec_total_supply() - refund
        }
    }
}

/// Relies on `near_sdk::serde_json::from_slice::<near_sdk::json_types::U128>`:
/// decoding a JSON string of a decimal unsigned 128-bit integer from the
/// bytes, `None` when the bytes are not such a document. The result is a
/// function of the bytes alone.
#[verifier::external_body]
fn parse_unused_amount(bytes: &Vec<u8>) -> (r: Option<u128>)
    ensures
        r == parsed_unused(bytes@),
{
    near_sdk::serde_json::from_slice::<near_sdk::json_types::U128>(bytes).ok().map(
        |value| value.0,
    )
}

impl FungibleToken {
    /// Phase one of a notify-transfer: performs the (final and irreversible)
    /// transfer and returns the notification the caller dispatches to the
    /// receiver. The pending settlement is carried inside the notification,
    /// not persisted.
    pub fn ft_transfer_call(
        &mut self,
        sender_id: &String,
        attached_deposit: u128,
        receiver_id: &String,
        amount: u128,
        msg: String,
        memo: Option<String>,
    ) -> (r: Result<TransferNotification, Error>)
        requires
            old(self).wf(),
            attached_deposit == 1,
        ensures
            final(self).wf(),
            match r {
                Ok(notification) => {
                    &&& old(self).spec_transfer_error(sender_id@, receiver_id@, amount) is None
                    &&& Self::spec_transfer_applied(
                        *old(self),
                        *final(self),
                        sender_id@,
                        receiver_id@,
                        amount,
                    )
                    &&& notification.sender_id@ == sender_id@
                    &&& notification.receiver_id@ == receiver_id@
                    &&& notification.amount == amount
                    &&& notification.msg == msg
                    &&& notification.memo == memo
                },
                Err(e) => {
                    &&& old(self).spec_transfer_error(sender_id@, receiver_id@, amount) == Some(e)
                    &&& *final(self) == *old(self)
                },
            },
    {
        match self.internal_transfer(sender_id, receiver_id, amount, memo) {
            Err(e) => Err(e),
            Ok(record) => Ok(
                TransferNotification {
                    sender_id: record.sender_id,
                    receiver_id: record.receiver_id,
                    amount,
                    msg,
                    memo: record.memo,
                },
            ),
        }
    }

    /// Reconciles a settlement once the receiver's claim of unused value is
    /// known: claws back `min(receiver's current balance, min(amount,
    /// reported))` and refunds it to the sender, or burns it if the sender
    /// deregistered between dispatch and resolution. Never errs: a
    /// conservative outcome is always available.
    ///
    /// Deliberately, the clamp reads the receiver's balance at resolution
    /// time, not how much of the originally transferred amount is traceably
    /// unspent: value the receiver took in from elsewhere between the two
    /// phases can be drawn on by the refund.
    pub fn resolve_unused(
        &mut self,
        sender_id: &String,
        receiver_id: &String,
        amount: u128,
        reported: u128,
    ) -> (r: ResolutionOutcome)
        requires
            old(self).wf(),
        ensures
            final(self).wf(),
            spec_resolution(
                *old(self),
                *final(self),
                sender_id@,
                receiver_id@,
                amount,
                reported,
                r,
            ),
    {
        let unused_amount = if reported < amount {
            reported
        } else {
            amount
        };
        let receiver_index = match self.find_index(receiver_id) {
            None => {
                return ResolutionOutcome { used_amount: amount, refunded: 0, burned: 0 };
            },
            Some(i) => i,
        };
        proof {
            lemma_index_of(self@, receiver_index as int);
        }
        let receiver_balance = self.entry_balance(receiver_index);
        let refund_amount = if receiver_balance < unused_amount {
            receiver_balance
        } else {
            unused_amount
        };
        if refund_amount == 0 {
            return ResolutionOutcome { used_amount: amount, refunded: 0, burned: 0 };
        }
        self.set_entry_balance(receiver_index, receiver_balance - refund_amount);
        proof {
            lemma_update_entry(old(self)@, receiver_index as int, self@[receiver_index as int]);
            lemma_sum_update(old(self)@, receiver_index as int, self@[receiver_index as int]);
        }
        match self.find_index(sender_id) {
            Some(sender_index) => {
                let ghost mid = *self;
                proof {
                    lemma_index_of(self@, sender_index as int);
                    lemma_sum_le(self@, sender_index as int);
                }
                let sender_balance = self.entry_balance(sender_index);
                self.set_entry_balance(sender_index, sender_balance + refund_amount);
                proof {
                    lemma_update_entry(mid@, sender_index as int, self@[sender_index as int]);
                    lemma_sum_update(mid@, sender_index as int, self@[sender_index as int]);
                }
                ResolutionOutcome {
                    used_amount: amount - refund_amount,
                    refunded: refund_amount,
                    burned: 0,
                }
            },
            None => {
                proof {
                    lemma_sum_le(old(self)@, receiver_index as int);
                }
                self.debit_total_supply(refund_amount);
                ResolutionOutcome { used_amount: amount, refunded: 0, burned: refund_amount }
            },
        }
    }

    /// The single resolution callback of a notify-transfer. It is
    /// privileged: unless the caller is the protocol's own continuation
    /// (the invoking account is the ledger's own account), it is rejected
    /// with `Unauthorized` and nothing changes, so the pending settlement
    /// cannot be replayed or forged by an outside caller.
    ///
    /// A failed or malformed response is treated leniently as "nothing was
    /// consumed" rather than rejected: rejecting here would strand the
    /// already-completed first phase.
    pub fn ft_resolve_transfer(
        &mut self,
        predecessor_id: &String,
        current_id: &String,
        sender_id: &String,
        receiver_id: &String,
        amount: u128,
        outcome: PromiseOutcome,
    ) -> (r: Result<ResolutionOutcome, Error>)
        requires
            old(self).wf(),
        ensures
            final(self).wf(),
            r is Err <==> predecessor_id@ != current_id@,
            predecessor_id@ != current_id@ <==> r == Err::<ResolutionOutcome, Error>(
                Error::Unauthorized,
            ),
            r is Err ==> *final(self) == *old(self),
            r matches Ok(resolution) ==> spec_resolution(
                *old(self),
                *final(self),
                sender_id@,
                receiver_id@,
                amount,
                spec_reported_unused(amount, outcome),
                resolution,
            ),
    {
        if !(*predecessor_id == *current_id) {
            return Err(Error::Unauthorized);
        }
        let ghost outcome_at_entry = outcome;
        let reported = match outcome {
            PromiseOutcome::Failed => amount,
            PromiseOutcome::Successful(bytes) => match parse_unused_amount(&bytes) {
                Some(value) => value,
                None => amount,
            },
        };
        proof {
            assert(reported == spec_reported_unused(amount, outcome_at_entry));
        }
        Ok(self.resolve_unused(sender_id, receiver_id, amount, reported))
    }
}

} // verus!
