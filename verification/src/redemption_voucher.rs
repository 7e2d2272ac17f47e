//! Redemption vouchers: the audit receipt a successful redemption creates,
//! snapshotting the merchant and offer text so it stays meaningful after the
//! offer mutates, with its own use/expiry lifecycle.

use vstd::prelude::*;

verus! {

/// The receipt of one redemption. Created active; may be marked used or
/// revoked (both set the same fields) and reactivated from that state; never
/// destroyed.
#[derive(Clone, Debug)]
pub struct RedemptionVoucher {
    /// Customer wallet identity.
    pub customer: u64,
    /// Merchant identity.
    pub merchant: u64,
    /// Identity of the offer this voucher was redeemed from.
    pub redemption_offer: u64,
    /// Merchant name at redemption time.
    pub merchant_name: String,
    /// Offer name at redemption time.
    pub offer_name: String,
    /// Offer description at redemption time.
    pub offer_description: String,
    /// Points paid.
    pub cost: u64,
    /// Human-presentable redemption code.
    pub redemption_code: String,
    /// Creation timestamp.
    pub created_at: i64,
    /// Expiration timestamp (a fixed window after creation).
    pub expires_at: i64,
    /// Whether the voucher has been used (or revoked).
    pub is_used: bool,
    /// When the voucher was used, if it has been.
    pub used_at: Option<i64>,
}

/// The voucher after being marked used (or revoked, which sets the same
/// fields) at `now`.
pub open spec fn marked_used(voucher: RedemptionVoucher, now: i64) -> RedemptionVoucher {
    RedemptionVoucher { is_used: true, used_at: Some(now), ..voucher }
}

/// The voucher after reactivation: the use fields are cleared, everything
/// else is kept.
pub open spec fn reactivated(voucher: RedemptionVoucher) -> RedemptionVoucher {
    RedemptionVoucher { is_used: false, used_at: None, ..voucher }
}

impl RedemptionVoucher {
    /// Check whether the voucher can still be used at `current_timestamp`:
    /// it has not been used and has not expired.
    pub fn is_valid(&self, current_timestamp: i64) -> (valid: bool)
        ensures
            valid == (!self.is_used && current_timestamp < self.expires_at),
    {
        !self.is_used && current_timestamp < self.expires_at
    }

    /// Record that the voucher was consumed at `timestamp`.
    pub fn mark_as_used(&mut self, timestamp: i64)
        ensures
            *final(self) == marked_used(*old(self), timestamp),
    {
        self.is_used = true;
        self.used_at = Some(timestamp);
    }
}

/// Marking a voucher used is permanent until an intervening reactivation:
/// however it was marked, the result is used, and it is no longer in the
/// state from which a use transition is permitted.
pub proof fn lemma_used_at_most_once(voucher: RedemptionVoucher, first: i64, second: i64)
    ensures
        marked_used(voucher, first).is_used,
        !(!marked_used(voucher, first).is_used && second < marked_used(voucher, first).expires_at),
{
}

/// Reactivating after a revocation restores the voucher's use fields to
/// `is_used == false`, `used_at == None` and touches nothing else; a voucher
/// that was never used comes back exactly as it was.
pub proof fn lemma_reactivate_after_revoke(voucher: RedemptionVoucher, revoked_at: i64)
    ensures
        !reactivated(marked_used(voucher, revoked_at)).is_used,
        reactivated(marked_used(voucher, revoked_at)).used_at is None,
        reactivated(marked_used(voucher, revoked_at)) == (RedemptionVoucher {
            is_used: false,
            used_at: None,
            ..voucher
        }),
        !voucher.is_used && voucher.used_at is None ==> reactivated(
            marked_used(voucher, revoked_at),
        ) == voucher,
{
}

} // verus!
