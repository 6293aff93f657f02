//! The failures that an operation can report. Each names the rule that was broken.

use vstd::prelude::*;

verus! {

#[derive(Clone, Copy, Debug, PartialEq, Eq, Structural)]
pub enum ErrorCode {
    /// The funding account holds less than the bundle's amount.
    InsufficientFunds,
    /// The funding account's delegate is not the controller.
    InvalidDelegate,
    /// The delegated allowance is below the funding account's balance.
    LowAllowance,
    /// The caller is not the trigger authority.
    Unauthorized,
    /// The bundle's interval has not passed since its last payment.
    IntervalNotPassed,
    /// The caller does not own the controller.
    NotOwner,
    /// The bundle at hand is not the one that was asked for.
    NotFound,
    /// The token transfer did not go through.
    TransferFailed,
    /// The token account at hand is not the one that the controller draws from.
    WrongFundingAccount,
    /// A bundle must pay a positive amount.
    InvalidAmount,
    /// A bundle must wait a positive time between payments.
    InvalidInterval,
    /// The controller has given out every bundle number.
    TooManyBundles,
    /// The transfer that was made is not the one that the records ask for.
    OrderMismatch,
}

impl ErrorCode {
    /// The text shown to a user for each failure.
    pub open spec fn text(self) -> Seq<char> {
        match self {
            ErrorCode::InsufficientFunds => "Insufficient funds in the vault"@,
            ErrorCode::InvalidDelegate => "The program is not approved as a delegate"@,
            ErrorCode::LowAllowance => "Sufficient allowance is not set"@,
            ErrorCode::Unauthorized => "Unauthorized"@,
            ErrorCode::IntervalNotPassed =>
                "The required interval has not yet passed since the last payment"@,
            ErrorCode::NotOwner => "The caller does not own this controller"@,
            ErrorCode::NotFound => "No such bundle under this controller"@,
            ErrorCode::TransferFailed => "The token transfer failed"@,
            ErrorCode::WrongFundingAccount =>
                "The token account is not the controller's funding account"@,
            ErrorCode::InvalidAmount => "The amount per interval must be greater than zero"@,
            ErrorCode::InvalidInterval => "The interval must be greater than zero"@,
            ErrorCode::TooManyBundles => "The controller has no bundle number left"@,
            ErrorCode::OrderMismatch => "The transfer does not match the bundle's records"@,
        }
    }

    /// Whether a caller may simply try again later: a payment was not yet due or not yet funded.
    pub open spec fn recoverable(self) -> bool {
        self == ErrorCode::IntervalNotPassed || self == ErrorCode::InsufficientFunds
    }

    pub fn message(&self) -> (s: &'static str)
        ensures
            s@ == self.text(),
    {
        match self {
            ErrorCode::InsufficientFunds => "Insufficient funds in the vault",
            ErrorCode::InvalidDelegate => "The program is not approved as a delegate",
            ErrorCode::LowAllowance => "Sufficient allowance is not set",
            ErrorCode::Unauthorized => "Unauthorized",
            ErrorCode::IntervalNotPassed =>
                "The required interval has not yet passed since the last payment",
            ErrorCode::NotOwner => "The caller does not own this controller",
            ErrorCode::NotFound => "No such bundle under this controller",
            ErrorCode::TransferFailed => "The token transfer failed",
            ErrorCode::WrongFundingAccount =>
                "The token account is not the controller's funding account",
            ErrorCode::InvalidAmount => "The amount per interval must be greater than zero",
            ErrorCode::InvalidInterval => "The interval must be greater than zero",
            ErrorCode::TooManyBundles => "The controller has no bundle number left",
            ErrorCode::OrderMismatch => "The transfer does not match the bundle's records",
        }
    }

    pub fn is_recoverable(&self) -> (r: bool)
        ensures
            r == self.recoverable(),
    {
        match self {
            ErrorCode::IntervalNotPassed => true,
            ErrorCode::InsufficientFunds => true,
            _ => false,
        }
    }
}

} // verus!
