//! Request-level errors.
//!
//! Every operation of the ledger either commits in full or returns one
//! of these errors with no partial effect. Retrying is the caller's
//! business; the ledger never retries internally.

use vstd::prelude::*;

verus! {

/// The reasons a request against the ledger can be rejected.
///
/// Malformed configuration (a refund ratio above one) is not here: it is
/// a programmer error ruled out at construction time by the
/// preconditions of the configuration builder, never discovered
/// mid-execution.
#[derive(Clone, Copy, PartialEq, Eq, Structural, Debug)]
pub enum LedgerError {
    /// Auction entry points are disabled network-wide by configuration.
    AuctionBidsDisabled,
    /// Transfers between two non-administrator accounts are disabled by
    /// configuration.
    UnrestrictedTransfersDisabled,
    /// A delegation rate above one hundred percent was submitted.
    InvalidDelegationRate,
    /// A first-time delegation below the configured minimum amount.
    BelowMinimumDelegation,
    /// The targeted validator has no bid in the ledger.
    ValidatorNotFound,
    /// An undelegation of more than the delegator's current position.
    UndelegateAmountExceedsStake,
    /// A step request whose era id does not strictly increase.
    EraRegression,
    /// Stake or reward arithmetic left the representable range. Amounts
    /// are never silently saturated or wrapped.
    ArithmeticOverflow,
}

/// The kind of a rejection: which part of the request was at fault.
#[derive(Clone, Copy, PartialEq, Eq, Structural, Debug)]
pub enum LedgerErrorKind {
    /// The request ran against a configured policy switch or bound.
    PolicyViolation,
    /// The request does not fit the current ledger state.
    StateViolation,
    /// The request's amounts cannot be computed within bounds.
    ArithmeticViolation,
}

/// The kind of each error.
pub open spec fn kind_of(e: LedgerError) -> LedgerErrorKind {
    match e {
        LedgerError::AuctionBidsDisabled => LedgerErrorKind::PolicyViolation,
        LedgerError::UnrestrictedTransfersDisabled => LedgerErrorKind::PolicyViolation,
        LedgerError::InvalidDelegationRate => LedgerErrorKind::PolicyViolation,
        LedgerError::BelowMinimumDelegation => LedgerErrorKind::PolicyViolation,
        LedgerError::ValidatorNotFound => LedgerErrorKind::StateViolation,
        LedgerError::UndelegateAmountExceedsStake => LedgerErrorKind::StateViolation,
        LedgerError::EraRegression => LedgerErrorKind::StateViolation,
        LedgerError::ArithmeticOverflow => LedgerErrorKind::ArithmeticViolation,
    }
}

impl LedgerError {
    /// Classifies this error into its kind.
    pub fn kind(&self) -> (r: LedgerErrorKind)
        ensures
            r == kind_of(*self),
    {
        match self {
            LedgerError::AuctionBidsDisabled => LedgerErrorKind::PolicyViolation,
            LedgerError::UnrestrictedTransfersDisabled => LedgerErrorKind::PolicyViolation,
            LedgerError::InvalidDelegationRate => LedgerErrorKind::PolicyViolation,
            LedgerError::BelowMinimumDelegation => LedgerErrorKind::PolicyViolation,
            LedgerError::ValidatorNotFound => LedgerErrorKind::StateViolation,
            LedgerError::UndelegateAmountExceedsStake => LedgerErrorKind::StateViolation,
            LedgerError::EraRegression => LedgerErrorKind::StateViolation,
            LedgerError::ArithmeticOverflow => LedgerErrorKind::ArithmeticViolation,
        }
    }
}

} // verus!
