//! A fungible-value ledger with an asynchronous, two-phase transfer protocol.
//!
//! The ledger maps account identifiers to unsigned 128-bit balances and
//! maintains the global invariant that the total supply equals the sum of all
//! registered balances. A plain transfer debits the sender and credits the
//! receiver atomically. A notify-transfer additionally dispatches a
//! notification to the receiver and later reconciles, in a single privileged
//! resolution callback, whatever part of the amount the receiver did not
//! consume: the remainder is refunded to the sender if still registered, and
//! burned otherwise.

pub mod error;
pub mod model;
pub mod settlement;
pub mod storage;
pub mod token;
