//! The voucher lifecycle operation: the merchant marks a voucher used,
//! revokes it, or reactivates it, and the linked analytics record always
//! mirrors the voucher's use state.

use vstd::prelude::*;
use crate::errors::SolcityError;
use crate::events::VoucherUsedEvent;
use crate::records::OfferRedemptionRecord;
use crate::redemption_voucher::{RedemptionVoucher, marked_used, reactivated};

verus! {

/// The state a merchant can move a voucher to.
#[derive(Clone, Copy, Debug, PartialEq, Eq, Structural)]
pub enum VoucherStatus {
    Active,
    Used,
    Revoked,
}

/// The analytics record and the voucher agree on the use state.
pub open spec fn record_mirrors_voucher(
    record: OfferRedemptionRecord,
    voucher: RedemptionVoucher,
) -> bool {
    record.is_used == voucher.is_used && record.used_at == voucher.used_at
}

/// Why moving a voucher to `status` at `now` is rejected, or `None` when it
/// is permitted. Consuming a voucher is permitted only while it is valid;
/// revoking is always permitted; reactivating is permitted only from the
/// used (or revoked) state.
pub open spec fn voucher_status_error(
    voucher: RedemptionVoucher,
    status: VoucherStatus,
    now: i64,
) -> Option<SolcityError> {
    match status {
        VoucherStatus::Used => if voucher.is_used {
            Some(SolcityError::VoucherAlreadyUsed)
        } else if now >= voucher.expires_at {
            Some(SolcityError::VoucherExpired)
        } else {
            None
        },
        VoucherStatus::Revoked => None,
        VoucherStatus::Active => if voucher.is_used && voucher.used_at is Some {
            None
        } else {
            Some(SolcityError::VoucherAlreadyUsed)
        },
    }
}

/// A voucher moves to Used at most once without an intervening
/// reactivation: after it was marked used (or revoked) at any time, a
/// further Used transition is rejected as already used, whatever the time.
pub proof fn lemma_used_at_most_once_without_reactivate(
    voucher: RedemptionVoucher,
    first: i64,
    second: i64,
)
    ensures
        voucher_status_error(marked_used(voucher, first), VoucherStatus::Used, second) == Some(
            SolcityError::VoucherAlreadyUsed,
        ),
{
}

/// Reactivation is permitted exactly from the used (or revoked) state, and
/// returns the voucher to one from which a Used transition is no longer
/// rejected as already used.
pub proof fn lemma_reactivate_enables_use(voucher: RedemptionVoucher, at: i64, later: i64)
    ensures
        voucher_status_error(marked_used(voucher, at), VoucherStatus::Active, later) is None,
        !reactivated(marked_used(voucher, at)).is_used,
{
}

/// Move a voucher to `status`, mirroring the use fields onto the linked
/// analytics record. Consuming the voucher yields the event to hand out; a
/// rejected transition leaves both records unchanged.
pub fn update_voucher_status(
    voucher: &mut RedemptionVoucher,
    voucher_key: u64,
    record: &mut OfferRedemptionRecord,
    status: VoucherStatus,
    now: i64,
) -> (result: Result<Option<VoucherUsedEvent>, SolcityError>)
    ensures
        result is Ok <==> voucher_status_error(*old(voucher), status, now) is None,
        result matches Err(e) ==> {
            &&& Some(e) == voucher_status_error(*old(voucher), status, now)
            &&& *final(voucher) == *old(voucher)
            &&& *final(record) == *old(record)
        },
        result is Ok && (status is Used || status is Revoked) ==> {
            &&& *final(voucher) == marked_used(*old(voucher), now)
            &&& *final(record) == (OfferRedemptionRecord {
                is_used: true,
                used_at: Some(now),
                ..*old(record)
            })
        },
        result is Ok && status is Active ==> {
            &&& *final(voucher) == reactivated(*old(voucher))
            &&& *final(record) == (OfferRedemptionRecord {
                is_used: false,
                used_at: None,
                ..*old(record)
            })
        },
        result is Ok ==> record_mirrors_voucher(*final(record), *final(voucher)),
        result matches Ok(Some(event)) ==> {
            &&& status is Used
            &&& event.voucher == voucher_key
            &&& event.customer == old(voucher).customer
            &&& event.merchant == old(voucher).merchant
            &&& event.offer_name@ == old(voucher).offer_name@
            &&& event.redemption_code@ == old(voucher).redemption_code@
            &&& event.timestamp == now
        },
        status is Used ==> (result matches Ok(event) ==> event is Some),
{
    match status {
        VoucherStatus::Used => {
            if voucher.is_used {
                return Err(SolcityError::VoucherAlreadyUsed);
            }
            if now >= voucher.expires_at {
                return Err(SolcityError::VoucherExpired);
            }
            voucher.mark_as_used(now);
            record.is_used = true;
            record.used_at = Some(now);
            Ok(Some(VoucherUsedEvent {
                voucher: voucher_key,
                customer: voucher.customer,
                merchant: voucher.merchant,
                offer_name: voucher.offer_name.clone(),
                redemption_code: voucher.redemption_code.clone(),
                timestamp: now,
            }))
        },
        VoucherStatus::Revoked => {
            voucher.is_used = true;
            voucher.used_at = Some(now);
            record.is_used = true;
            record.used_at = Some(now);
            Ok(None)
        },
        VoucherStatus::Active => {
            if !(voucher.is_used && voucher.used_at.is_some()) {
                return Err(SolcityError::VoucherAlreadyUsed);
            }
            voucher.is_used = false;
            voucher.used_at = None;
            record.is_used = false;
            record.used_at = None;
            Ok(None)
        },
    }
}

} // verus!
