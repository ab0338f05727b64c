use vstd::prelude::*;

verus! {

/// Why an escrow operation was refused. A refused operation changes nothing.
#[derive(Clone, Copy, Debug, PartialEq, Eq, Structural)]
pub enum EscrowError {
    /// The escrow has already been settled; no further operation is valid.
    AlreadySettled,
    /// The escrow record was never created.
    NotInitialized,
    /// Acceptance was attempted at or after the expiry time.
    Expired,
    /// Settlement was attempted before the expiry time.
    NotExpiredYet,
    /// Settlement was attempted before any counterparty accepted.
    NoSecondTrader,
    /// A counterparty has already accepted this escrow.
    AlreadyAccepted,
    /// A live escrow already exists for this creator.
    DuplicateEscrow,
    /// The caller cannot cover the collateral.
    InsufficientFunds,
    /// A balance would exceed the 64-bit range.
    Overflow,
    /// The price oracle could not supply a value.
    OracleUnavailable,
    /// The hosting runtime gave no clock to read the time from.
    ClockUnavailable,
    /// The wallet offered to receive the payout is not the winner's.
    WinnerMismatch,
}

impl EscrowError {
    /// The text of the message for this error.
    pub open spec fn message_text(self) -> Seq<char> {
        match self {
            EscrowError::AlreadySettled => "Escrow is already settled"@,
            EscrowError::NotInitialized => "Escrow is not initialized"@,
            EscrowError::Expired => "Escrow has expired"@,
            EscrowError::NotExpiredYet => "Escrow has not expired yet"@,
            EscrowError::NoSecondTrader => "No second trader has accepted the escrow"@,
            EscrowError::AlreadyAccepted => "Escrow has already been accepted"@,
            EscrowError::DuplicateEscrow => "A live escrow already exists for this trader"@,
            EscrowError::InsufficientFunds => "Insufficient funds to lock the margin"@,
            EscrowError::Overflow => "Balance arithmetic overflowed"@,
            EscrowError::OracleUnavailable => "Floor price oracle is unavailable"@,
            EscrowError::ClockUnavailable => "Clock is unavailable"@,
            EscrowError::WinnerMismatch => "Winner account does not match the winner"@,
        }
    }

    /// A human-readable message for this error.
    pub fn message(&self) -> (text: &'static str)
        ensures
            text@ == self.message_text(),
    {
        match self {
            EscrowError::AlreadySettled => "Escrow is already settled",
            EscrowError::NotInitialized => "Escrow is not initialized",
            EscrowError::Expired => "Escrow has expired",
            EscrowError::NotExpiredYet => "Escrow has not expired yet",
            EscrowError::NoSecondTrader => "No second trader has accepted the escrow",
            EscrowError::AlreadyAccepted => "Escrow has already been accepted",
            EscrowError::DuplicateEscrow => "A live escrow already exists for this trader",
            EscrowError::InsufficientFunds => "Insufficient funds to lock the margin",
            EscrowError::Overflow => "Balance arithmetic overflowed",
            EscrowError::OracleUnavailable => "Floor price oracle is unavailable",
            EscrowError::ClockUnavailable => "Clock is unavailable",
            EscrowError::WinnerMismatch => "Winner account does not match the winner",
        }
    }
}

} // verus!
