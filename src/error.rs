use vstd::prelude::*;

verus! {

/// Why an operation was refused. A refused operation changes no record.
#[derive(Clone, Copy, Debug, PartialEq, Eq, Structural)]
pub enum ErrorCode {
    EscrowExpired,
    EscrowNotExpired,
    Unauthorized,
    AlreadyFunded,
    NotFunded,
    PaymentNotDue,
    AllPaymentsCompleted,
    InsufficientApprovals,
    AlreadyExecuted,
    InvalidThreshold,
    TooManyOwners,
    AlreadyApproved,
    NotAnOwner,
    InvalidCalculation,
    NoRewardsToClaim,
    StakeStillLocked,
    InsufficientStake,
    /// An escrow's expiry is not after its creation time.
    InvalidExpiry,
    /// A recurring payment with a zero amount or zero payments.
    InvalidPaymentTerms,
    /// The record was closed by an earlier operation.
    AccountClosed,
}

/// The broad class of a refusal.
#[derive(Clone, Copy, Debug, PartialEq, Eq, Structural)]
pub enum ErrorKind {
    /// The caller is not the party or owner the operation needs.
    Authorization,
    /// The record's state forbids the operation.
    StateConflict,
    /// A time gate is not satisfied.
    Timing,
    /// Checked arithmetic would overflow.
    ArithmeticOverflow,
    /// The requested amount exceeds what is available.
    InsufficientFunds,
    /// Malformed creation arguments.
    ConfigValidation,
}

pub open spec fn kind_of(e: ErrorCode) -> ErrorKind {
    match e {
        ErrorCode::Unauthorized | ErrorCode::NotAnOwner => ErrorKind::Authorization,
        ErrorCode::AlreadyFunded | ErrorCode::NotFunded | ErrorCode::AllPaymentsCompleted
        | ErrorCode::InsufficientApprovals | ErrorCode::AlreadyExecuted
        | ErrorCode::AlreadyApproved | ErrorCode::NoRewardsToClaim
        | ErrorCode::AccountClosed => ErrorKind::StateConflict,
        ErrorCode::EscrowExpired | ErrorCode::EscrowNotExpired | ErrorCode::PaymentNotDue
        | ErrorCode::StakeStillLocked => ErrorKind::Timing,
        ErrorCode::InvalidCalculation => ErrorKind::ArithmeticOverflow,
        ErrorCode::InsufficientStake => ErrorKind::InsufficientFunds,
        ErrorCode::InvalidThreshold | ErrorCode::TooManyOwners | ErrorCode::InvalidExpiry
        | ErrorCode::InvalidPaymentTerms => ErrorKind::ConfigValidation,
    }
}

impl ErrorCode {
    pub fn kind(&self) -> (r: ErrorKind)
        ensures
            r == kind_of(*self),
    {
        match self {
            ErrorCode::Unauthorized | ErrorCode::NotAnOwner => ErrorKind::Authorization,
            ErrorCode::AlreadyFunded | ErrorCode::NotFunded | ErrorCode::AllPaymentsCompleted
            | ErrorCode::InsufficientApprovals | ErrorCode::AlreadyExecuted
            | ErrorCode::AlreadyApproved | ErrorCode::NoRewardsToClaim
            | ErrorCode::AccountClosed => ErrorKind::StateConflict,
            ErrorCode::EscrowExpired | ErrorCode::EscrowNotExpired | ErrorCode::PaymentNotDue
            | ErrorCode::StakeStillLocked => ErrorKind::Timing,
            ErrorCode::InvalidCalculation => ErrorKind::ArithmeticOverflow,
            ErrorCode::InsufficientStake => ErrorKind::InsufficientFunds,
            ErrorCode::InvalidThreshold | ErrorCode::TooManyOwners | ErrorCode::InvalidExpiry
            | ErrorCode::InvalidPaymentTerms => ErrorKind::ConfigValidation,
        }
    }
}

} // verus!
