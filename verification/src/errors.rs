//! The error kinds every operation of the engine can report. All failures are
//! surfaced synchronously to the caller; no operation partially commits.

use vstd::prelude::*;

verus! {

#[derive(Clone, Copy, Debug, PartialEq, Eq, Structural)]
pub enum SolcityError {
    /// Insufficient token balance for redemption.
    InsufficientBalance,
    /// Merchant account is not active.
    MerchantNotActive,
    /// Invalid reward amount.
    InvalidRewardAmount,
    /// Arithmetic overflow in calculation.
    Overflow,
    /// Invalid customer tier.
    InvalidTier,
    /// Reward rule is not active.
    RuleNotActive,
    /// Invalid time range for reward rule.
    InvalidTimeRange,
    /// Name exceeds maximum length.
    NameTooLong,
    /// Name cannot be empty.
    NameEmpty,
    /// Invalid interest rate.
    InvalidInterestRate,
    /// Unauthorized access to account.
    UnauthorizedAccess,
    /// Invalid mint for token account.
    InvalidMint,
    /// Invalid platform treasury account.
    InvalidTreasury,
    /// Redemption offer is not available (expired, sold out, or inactive).
    OfferNotAvailable,
    /// Merchant has active reward rules; delete them before closing.
    MerchantHasActiveRules,
    /// Voucher has already been used.
    VoucherAlreadyUsed,
    /// Voucher has expired.
    VoucherExpired,
    /// Invalid account provided.
    InvalidAccount,
}

} // verus!
