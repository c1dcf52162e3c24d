//! Why a ledger operation was refused.
use vstd::prelude::*;

verus! {

/// The reasons for which the ledger refuses an operation. Every one of them
/// ends the operation that met it: nothing is retried and nothing is
/// downgraded to a warning.
#[derive(Clone, Copy, Debug, PartialEq, Eq, Structural)]
pub enum LedgerError {
    /// The authorization gate turned the caller away.
    Unauthorized,
    /// The caller has used this nonce before.
    ReplayedNonce,
    /// The balance would not stay strictly positive.
    InsufficientFunds,
    /// The funds attached to the call differ from the amount it states.
    AmountMismatch,
    /// No payment, request debit or status bucket is known by that key.
    NotFound,
    /// The request debit is not in the status that the operation needs.
    InvalidState,
    /// The request debit is claimed before its start date or after its end
    /// date.
    OutOfWindow,
    /// The request debit is claimed before its payout interval has passed.
    IntervalNotElapsed,
    /// The role authority gave no usable answer.
    AuthorityUnavailable,
    /// The transfer gave no usable result.
    SettlementFailure,
    /// The balance would exceed what the ledger can hold.
    Overflow,
}

/// The text that goes with each error.
pub open spec fn error_text(e: LedgerError) -> Seq<char> {
    match e {
        LedgerError::Unauthorized => "OPERATION CANCELLED. ACCOUNT NOT ALLOWED"@,
        LedgerError::ReplayedNonce => "REPEAT NONCE DETECTED"@,
        LedgerError::InsufficientFunds => "INSUFFICIENT FUNDS AVAILABLE"@,
        LedgerError::AmountMismatch => "DEPOSIT MIS-MATCH"@,
        LedgerError::NotFound => "UNKNOWN REFERENCE OR STATUS"@,
        LedgerError::InvalidState => "INVALID STATUS FOR ACTION"@,
        LedgerError::OutOfWindow => "REQUEST DEBIT CLAIM PERIOD NOT STARTED OR EXPIRED"@,
        LedgerError::IntervalNotElapsed => "PAY OUT INTERVAL NOT REACHED"@,
        LedgerError::AuthorityUnavailable => "PROMISE FAILURE FOR SECURITY REQUEST"@,
        LedgerError::SettlementFailure => "PROMISE FAILURE FOR TRANSFER"@,
        LedgerError::Overflow => "BALANCE OUT OF RANGE"@,
    }
}

impl LedgerError {
    /// The text that goes with this error, for whoever reports it.
    pub fn message(&self) -> (text: String)
        ensures
            text@ == error_text(*self),
    {
        match self {
            LedgerError::Unauthorized => String::from_str(
                "OPERATION CANCELLED. ACCOUNT NOT ALLOWED",
            ),
            LedgerError::ReplayedNonce => String::from_str("REPEAT NONCE DETECTED"),
            LedgerError::InsufficientFunds => String::from_str("INSUFFICIENT FUNDS AVAILABLE"),
            LedgerError::AmountMismatch => String::from_str("DEPOSIT MIS-MATCH"),
            LedgerError::NotFound => String::from_str("UNKNOWN REFERENCE OR STATUS"),
            LedgerError::InvalidState => String::from_str("INVALID STATUS FOR ACTION"),
            LedgerError::OutOfWindow => String::from_str(
                "REQUEST DEBIT CLAIM PERIOD NOT STARTED OR EXPIRED",
            ),
            LedgerError::IntervalNotElapsed => String::from_str("PAY OUT INTERVAL NOT REACHED"),
            LedgerError::AuthorityUnavailable => String::from_str(
                "PROMISE FAILURE FOR SECURITY REQUEST",
            ),
            LedgerError::SettlementFailure => String::from_str("PROMISE FAILURE FOR TRANSFER"),
            LedgerError::Overflow => String::from_str("BALANCE OUT OF RANGE"),
        }
    }
}

} // verus!
