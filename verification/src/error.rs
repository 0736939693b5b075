use vstd::prelude::*;

verus! {

/// Why a ledger or protocol operation was rejected.
///
/// Every rejected operation leaves the ledger exactly as it was: no partial
/// mutation is ever observable.
#[derive(Clone, Copy, Debug, PartialEq, Eq, Structural)]
pub enum Error {
    /// The account has no ledger entry.
    NotRegistered,
    /// The account already has a ledger entry.
    AlreadyRegistered,
    /// A balance or the total supply would exceed the 128-bit range.
    Overflow,
    /// The debited amount exceeds the account's balance.
    InsufficientBalance,
    /// Sender and receiver of a transfer must differ.
    SelfTransfer,
    /// A transfer must move a positive amount.
    ZeroAmount,
    /// The resolution callback was invoked by an untrusted caller.
    Unauthorized,
    /// The attached payment does not equal the required storage deposit.
    WrongDepositAmount,
    /// A deregistered account must hold a zero balance.
    NonZeroBalance,
}

impl Error {
    /// A short description of the rejection, for callers that report it.
    pub fn message(&self) -> &'static str {
        match self {
            Error::NotRegistered => "the account is not registered",
            Error::AlreadyRegistered => "the account is already registered",
            Error::Overflow => "balance or total supply overflow",
            Error::InsufficientBalance => "the account does not have enough balance",
            Error::SelfTransfer => "sender and receiver should be different",
            Error::ZeroAmount => "the amount should be a positive number",
            Error::Unauthorized => "only the contract itself may resolve a transfer",
            Error::WrongDepositAmount => "requires the exact storage minimum balance",
            Error::NonZeroBalance => "the account has a positive token balance",
        }
    }
}

} // verus!
