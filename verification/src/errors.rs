//! The error codes shared by the contracts of the protocol.

use vstd::prelude::*;

verus! {

/// Why a call was refused. Variants stand in the order of their numeric codes.
#[derive(Copy, Clone, Debug, Eq, PartialEq, PartialOrd, Ord, Structural)]
pub enum KoraError {
    /// The caller may not do this. Also: the caller is not a configured multisig signer,
    /// or the governance approval threshold is not met.
    Unauthorized,
    NotAdmin,
    NotVerifier,
    ProtocolPaused,
    AlreadyPaused,
    NotPaused,
    RoleNotAssigned,
    InvoiceNotFound,
    InvoiceAlreadyExists,
    InvalidInvoiceStatus,
    InvoiceExpired,
    /// Also covers an invalid governance parameter value.
    InvalidAmount,
    InvalidDueDate,
    InvalidRiskScore,
    InvoiceFrozen,
    InvalidCid,
    ListingNotFound,
    ListingAlreadyCancelled,
    FundingDeadlinePassed,
    ExceedsFundingTarget,
    ListingFullyFunded,
    FundingNotExpired,
    RefundAlreadyClaimed,
    PoolNotFound,
    PoolAlreadyClosed,
    RepaymentAlreadyMade,
    /// Also covers an insufficient stake.
    InsufficientPoolBalance,
    PositionNotFound,
    SaleNotFound,
    InvalidFeeRate,
    TokenNotWhitelisted,
    WithdrawalRateLimitExceeded,
    /// Also covers a debtor that is not registered.
    SMENotRegistered,
    ComplianceNotAttested,
    ArithmeticOverflow,
    /// A subtraction would go below zero.
    ArithmeticUnderflow,
    InvalidAddress,
    EmptyString,
    /// Also covers a position that is already listed for sale.
    AlreadyInitialized,
    NoContribution,
    NotInitialized,
    /// Empty bytes, as distinct from an empty string.
    EmptyBytes,
    /// The reentrancy lock is already held.
    Reentrancy,
    /// Also covers a missing withdrawal-cap or access-control upgrade proposal.
    NoUpgradeProposed,
    /// Also covers the withdrawal-cap and governance timelocks and the score-update cooldown.
    UpgradeTimelockNotElapsed,
    /// A field value exceeds the allowed maximum length.
    FieldTooLong,
    ParameterProposalNotFound,
    /// Also covers a vote that was already cast.
    ParameterProposalAlreadyExecuted,
    CancellationPending,
    NoCancellationPending,
}

impl KoraError {
    /// The number under which off-chain clients see the error.
    pub open spec fn spec_code(self) -> u32 {
        match self {
            KoraError::Unauthorized => 1,
            KoraError::NotAdmin => 2,
            KoraError::NotVerifier => 3,
            KoraError::ProtocolPaused => 4,
            KoraError::AlreadyPaused => 5,
            KoraError::NotPaused => 6,
            KoraError::RoleNotAssigned => 7,
            KoraError::InvoiceNotFound => 10,
            KoraError::InvoiceAlreadyExists => 11,
            KoraError::InvalidInvoiceStatus => 12,
            KoraError::InvoiceExpired => 13,
            KoraError::InvalidAmount => 14,
            KoraError::InvalidDueDate => 15,
            KoraError::InvalidRiskScore => 16,
            KoraError::InvoiceFrozen => 17,
            KoraError::InvalidCid => 18,
            KoraError::ListingNotFound => 20,
            KoraError::ListingAlreadyCancelled => 21,
            KoraError::FundingDeadlinePassed => 23,
            KoraError::ExceedsFundingTarget => 25,
            KoraError::ListingFullyFunded => 27,
            KoraError::FundingNotExpired => 28,
            KoraError::RefundAlreadyClaimed => 29,
            KoraError::PoolNotFound => 30,
            KoraError::PoolAlreadyClosed => 31,
            KoraError::RepaymentAlreadyMade => 32,
            KoraError::InsufficientPoolBalance => 33,
            KoraError::PositionNotFound => 34,
            KoraError::SaleNotFound => 36,
            KoraError::InvalidFeeRate => 40,
            KoraError::TokenNotWhitelisted => 42,
            KoraError::WithdrawalRateLimitExceeded => 43,
            KoraError::SMENotRegistered => 50,
            KoraError::ComplianceNotAttested => 53,
            KoraError::ArithmeticOverflow => 90,
            KoraError::ArithmeticUnderflow => 91,
            KoraError::InvalidAddress => 92,
            KoraError::EmptyString => 93,
            KoraError::AlreadyInitialized => 94,
            KoraError::NoContribution => 95,
            KoraError::NotInitialized => 96,
            KoraError::EmptyBytes => 97,
            KoraError::Reentrancy => 98,
            KoraError::NoUpgradeProposed => 100,
            KoraError::UpgradeTimelockNotElapsed => 101,
            KoraError::FieldTooLong => 103,
            KoraError::ParameterProposalNotFound => 110,
            KoraError::ParameterProposalAlreadyExecuted => 111,
            KoraError::CancellationPending => 118,
            KoraError::NoCancellationPending => 119,
        }
    }

    /// The number under which off-chain clients see the error.
    pub fn code(self) -> (r: u32)
        ensures
            r == self.spec_code(),
    {
        match self {
            KoraError::Unauthorized => 1,
            KoraError::NotAdmin => 2,
            KoraError::NotVerifier => 3,
            KoraError::ProtocolPaused => 4,
            KoraError::AlreadyPaused => 5,
            KoraError::NotPaused => 6,
            KoraError::RoleNotAssigned => 7,
            KoraError::InvoiceNotFound => 10,
            KoraError::InvoiceAlreadyExists => 11,
            KoraError::InvalidInvoiceStatus => 12,
            KoraError::InvoiceExpired => 13,
            KoraError::InvalidAmount => 14,
            KoraError::InvalidDueDate => 15,
            KoraError::InvalidRiskScore => 16,
            KoraError::InvoiceFrozen => 17,
            KoraError::InvalidCid => 18,
            KoraError::ListingNotFound => 20,
            KoraError::ListingAlreadyCancelled => 21,
            KoraError::FundingDeadlinePassed => 23,
            KoraError::ExceedsFundingTarget => 25,
            KoraError::ListingFullyFunded => 27,
            KoraError::FundingNotExpired => 28,
            KoraError::RefundAlreadyClaimed => 29,
            KoraError::PoolNotFound => 30,
            KoraError::PoolAlreadyClosed => 31,
            KoraError::RepaymentAlreadyMade => 32,
            KoraError::InsufficientPoolBalance => 33,
            KoraError::PositionNotFound => 34,
            KoraError::SaleNotFound => 36,
            KoraError::InvalidFeeRate => 40,
            KoraError::TokenNotWhitelisted => 42,
            KoraError::WithdrawalRateLimitExceeded => 43,
            KoraError::SMENotRegistered => 50,
            KoraError::ComplianceNotAttested => 53,
            KoraError::ArithmeticOverflow => 90,
            KoraError::ArithmeticUnderflow => 91,
            KoraError::InvalidAddress => 92,
            KoraError::EmptyString => 93,
            KoraError::AlreadyInitialized => 94,
            KoraError::NoContribution => 95,
            KoraError::NotInitialized => 96,
            KoraError::EmptyBytes => 97,
            KoraError::Reentrancy => 98,
            KoraError::NoUpgradeProposed => 100,
            KoraError::UpgradeTimelockNotElapsed => 101,
            KoraError::FieldTooLong => 103,
            KoraError::ParameterProposalNotFound => 110,
            KoraError::ParameterProposalAlreadyExecuted => 111,
            KoraError::CancellationPending => 118,
            KoraError::NoCancellationPending => 119,
        }
    }
}

/// No two errors share a code, so a client that sees a code knows the error.
pub proof fn law_codes_are_unique(a: KoraError, b: KoraError)
    ensures
        a.spec_code() == b.spec_code() <==> a == b,
{
}

/// The codes by which clients know the errors: each code stands for one error, and no
/// other number for any.
pub proof fn law_codes_name_errors(e: KoraError)
    ensures
        e.spec_code() == 1 <==> e == KoraError::Unauthorized,
        e.spec_code() == 2 <==> e == KoraError::NotAdmin,
        e.spec_code() == 3 <==> e == KoraError::NotVerifier,
        e.spec_code() == 4 <==> e == KoraError::ProtocolPaused,
        e.spec_code() == 5 <==> e == KoraError::AlreadyPaused,
        e.spec_code() == 6 <==> e == KoraError::NotPaused,
        e.spec_code() == 7 <==> e == KoraError::RoleNotAssigned,
        e.spec_code() == 10 <==> e == KoraError::InvoiceNotFound,
        e.spec_code() == 11 <==> e == KoraError::InvoiceAlreadyExists,
        e.spec_code() == 12 <==> e == KoraError::InvalidInvoiceStatus,
        e.spec_code() == 13 <==> e == KoraError::InvoiceExpired,
        e.spec_code() == 14 <==> e == KoraError::InvalidAmount,
        e.spec_code() == 15 <==> e == KoraError::InvalidDueDate,
        e.spec_code() == 16 <==> e == KoraError::InvalidRiskScore,
        e.spec_code() == 17 <==> e == KoraError::InvoiceFrozen,
        e.spec_code() == 18 <==> e == KoraError::InvalidCid,
        e.spec_code() == 20 <==> e == KoraError::ListingNotFound,
        e.spec_code() == 21 <==> e == KoraError::ListingAlreadyCancelled,
        e.spec_code() == 23 <==> e == KoraError::FundingDeadlinePassed,
        e.spec_code() == 25 <==> e == KoraError::ExceedsFundingTarget,
        e.spec_code() == 27 <==> e == KoraError::ListingFullyFunded,
        e.spec_code() == 28 <==> e == KoraError::FundingNotExpired,
        e.spec_code() == 29 <==> e == KoraError::RefundAlreadyClaimed,
        e.spec_code() == 30 <==> e == KoraError::PoolNotFound,
        e.spec_code() == 31 <==> e == KoraError::PoolAlreadyClosed,
        e.spec_code() == 32 <==> e == KoraError::RepaymentAlreadyMade,
        e.spec_code() == 33 <==> e == KoraError::InsufficientPoolBalance,
        e.spec_code() == 34 <==> e == KoraError::PositionNotFound,
        e.spec_code() == 36 <==> e == KoraError::SaleNotFound,
        e.spec_code() == 40 <==> e == KoraError::InvalidFeeRate,
        e.spec_code() == 42 <==> e == KoraError::TokenNotWhitelisted,
        e.spec_code() == 43 <==> e == KoraError::WithdrawalRateLimitExceeded,
        e.spec_code() == 50 <==> e == KoraError::SMENotRegistered,
        e.spec_code() == 53 <==> e == KoraError::ComplianceNotAttested,
        e.spec_code() == 90 <==> e == KoraError::ArithmeticOverflow,
        e.spec_code() == 91 <==> e == KoraError::ArithmeticUnderflow,
        e.spec_code() == 92 <==> e == KoraError::InvalidAddress,
        e.spec_code() == 93 <==> e == KoraError::EmptyString,
        e.spec_code() == 94 <==> e == KoraError::AlreadyInitialized,
        e.spec_code() == 95 <==> e == KoraError::NoContribution,
        e.spec_code() == 96 <==> e == KoraError::NotInitialized,
        e.spec_code() == 97 <==> e == KoraError::EmptyBytes,
        e.spec_code() == 98 <==> e == KoraError::Reentrancy,
        e.spec_code() == 100 <==> e == KoraError::NoUpgradeProposed,
        e.spec_code() == 101 <==> e == KoraError::UpgradeTimelockNotElapsed,
        e.spec_code() == 103 <==> e == KoraError::FieldTooLong,
        e.spec_code() == 110 <==> e == KoraError::ParameterProposalNotFound,
        e.spec_code() == 111 <==> e == KoraError::ParameterProposalAlreadyExecuted,
        e.spec_code() == 118 <==> e == KoraError::CancellationPending,
        e.spec_code() == 119 <==> e == KoraError::NoCancellationPending,
{
}

} // verus!
