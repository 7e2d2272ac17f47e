//! Derived ledger records: the per-(merchant, customer) aggregate, the
//! append-only per-customer transaction history, and the per-redemption
//! analytics record that mirrors its voucher's use state.

use vstd::prelude::*;

verus! {

/// Transaction type tag: points earned.
pub const TRANSACTION_EARNED: u8 = 0;

/// Transaction type tag: points redeemed.
pub const TRANSACTION_REDEEMED: u8 = 1;

/// One record per (merchant, customer) pair, aggregating the totals between
/// that pair specifically. The identity fields of an untouched record are
/// zero; the first write on a pair initializes the record from zero,
/// whichever direction the first interaction has.
#[derive(Clone, Debug)]
pub struct MerchantCustomerRecord {
    /// Merchant identity, or zero while the record is untouched.
    pub merchant: u64,
    /// Customer wallet identity.
    pub customer: u64,
    /// Total tokens issued to this customer by this merchant.
    pub total_issued: u64,
    /// Total tokens redeemed by this customer at this merchant.
    pub total_redeemed: u64,
    /// Number of transactions (earn + redeem) between the pair.
    pub transaction_count: u64,
    /// First transaction timestamp.
    pub first_transaction: i64,
    /// Last transaction timestamp.
    pub last_transaction: i64,
}

/// One append-only record per earn or redeem event, addressed by a
/// monotonically increasing per-customer index. Never mutated after
/// creation.
#[derive(Clone, Debug)]
pub struct TransactionRecord {
    /// Customer wallet identity.
    pub customer: u64,
    /// Merchant involved.
    pub merchant: u64,
    /// `TRANSACTION_EARNED` or `TRANSACTION_REDEEMED`.
    pub transaction_type: u8,
    /// Amount of tokens.
    pub amount: u64,
    /// Customer tier rank at the time of the transaction (0 = Bronze up to
    /// 3 = Platinum).
    pub tier: u8,
    /// Timestamp.
    pub timestamp: i64,
    /// Transaction index for this customer, used as its addressing key.
    pub index: u64,
}

/// One append-only analytics record per redemption, linking offer, merchant,
/// customer and voucher, and duplicating the voucher's use state for
/// independent auditing.
#[derive(Clone, Debug)]
pub struct OfferRedemptionRecord {
    /// The offer that was redeemed.
    pub offer: u64,
    /// Merchant who owns the offer.
    pub merchant: u64,
    /// Customer who redeemed.
    pub customer: u64,
    /// The voucher the redemption created.
    pub voucher: u64,
    /// Amount of tokens spent.
    pub amount: u64,
    /// Timestamp of the redemption.
    pub timestamp: i64,
    /// Whether the voucher has been used, mirrored from the voucher.
    pub is_used: bool,
    /// When the voucher was used, mirrored from the voucher.
    pub used_at: Option<i64>,
}

} // verus!
