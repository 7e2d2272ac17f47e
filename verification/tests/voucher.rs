use solcity_protocol::errors::SolcityError;
use solcity_protocol::records::OfferRedemptionRecord;
use solcity_protocol::redemption_voucher::RedemptionVoucher;
use solcity_protocol::use_voucher::{update_voucher_status, VoucherStatus};

const NOW: i64 = 1_700_000_000;
const EXPIRES: i64 = NOW + 30 * 24 * 60 * 60;

fn fresh_voucher() -> RedemptionVoucher {
    RedemptionVoucher {
        customer: 7,
        merchant: 2,
        redemption_offer: 4,
        merchant_name: String::from("Corner Cafe"),
        offer_name: String::from("Free espresso"),
        offer_description: String::from("One free espresso shot"),
        cost: 500,
        redemption_code: String::from("SLCY-0F8D-0004"),
        created_at: NOW,
        expires_at: EXPIRES,
        is_used: false,
        used_at: None,
    }
}

fn fresh_record() -> OfferRedemptionRecord {
    OfferRedemptionRecord {
        offer: 4,
        merchant: 2,
        customer: 7,
        voucher: 5,
        amount: 500,
        timestamp: NOW,
        is_used: false,
        used_at: None,
    }
}

#[test]
fn voucher_validity() {
    let voucher = fresh_voucher();
    assert!(voucher.is_valid(NOW));
    assert!(voucher.is_valid(EXPIRES - 1));
    assert!(!voucher.is_valid(EXPIRES));
    let mut used = fresh_voucher();
    used.mark_as_used(NOW);
    assert!(!used.is_valid(NOW));
}

#[test]
fn using_a_voucher_emits_the_event_and_mirrors_the_record() {
    let mut voucher = fresh_voucher();
    let mut record = fresh_record();
    let event = update_voucher_status(&mut voucher, 5, &mut record, VoucherStatus::Used, NOW + 10)
        .unwrap()
        .unwrap();
    assert!(voucher.is_used);
    assert_eq!(voucher.used_at, Some(NOW + 10));
    assert!(record.is_used);
    assert_eq!(record.used_at, Some(NOW + 10));
    assert_eq!(event.voucher, 5);
    assert_eq!(event.customer, 7);
    assert_eq!(event.merchant, 2);
    assert_eq!(event.offer_name, "Free espresso");
    assert_eq!(event.redemption_code, "SLCY-0F8D-0004");
    assert_eq!(event.timestamp, NOW + 10);
}

#[test]
fn voucher_can_be_used_at_most_once() {
    let mut voucher = fresh_voucher();
    let mut record = fresh_record();
    update_voucher_status(&mut voucher, 5, &mut record, VoucherStatus::Used, NOW + 10).unwrap();
    let second =
        update_voucher_status(&mut voucher, 5, &mut record, VoucherStatus::Used, NOW + 20);
    assert_eq!(second.unwrap_err(), SolcityError::VoucherAlreadyUsed);
    // The first use stands untouched.
    assert_eq!(voucher.used_at, Some(NOW + 10));
    assert_eq!(record.used_at, Some(NOW + 10));
}

#[test]
fn expired_voucher_cannot_be_used() {
    let mut voucher = fresh_voucher();
    let mut record = fresh_record();
    let result =
        update_voucher_status(&mut voucher, 5, &mut record, VoucherStatus::Used, EXPIRES);
    assert_eq!(result.unwrap_err(), SolcityError::VoucherExpired);
    assert!(!voucher.is_used);
    assert!(!record.is_used);
}

#[test]
fn reactivate_after_revoke_restores_voucher_and_mirror() {
    let mut voucher = fresh_voucher();
    let mut record = fresh_record();

    update_voucher_status(&mut voucher, 5, &mut record, VoucherStatus::Revoked, NOW + 10)
        .unwrap();
    assert!(voucher.is_used);
    assert_eq!(voucher.used_at, Some(NOW + 10));
    assert!(record.is_used);
    assert_eq!(record.used_at, Some(NOW + 10));

    update_voucher_status(&mut voucher, 5, &mut record, VoucherStatus::Active, NOW + 20)
        .unwrap();
    assert!(!voucher.is_used);
    assert_eq!(voucher.used_at, None);
    assert!(!record.is_used);
    assert_eq!(record.used_at, None);

    // Everything else came back exactly as created.
    let created = fresh_voucher();
    assert_eq!(voucher.customer, created.customer);
    assert_eq!(voucher.merchant, created.merchant);
    assert_eq!(voucher.redemption_offer, created.redemption_offer);
    assert_eq!(voucher.merchant_name, created.merchant_name);
    assert_eq!(voucher.offer_name, created.offer_name);
    assert_eq!(voucher.offer_description, created.offer_description);
    assert_eq!(voucher.cost, created.cost);
    assert_eq!(voucher.redemption_code, created.redemption_code);
    assert_eq!(voucher.created_at, created.created_at);
    assert_eq!(voucher.expires_at, created.expires_at);
    let untouched = fresh_record();
    assert_eq!(record.offer, untouched.offer);
    assert_eq!(record.voucher, untouched.voucher);
    assert_eq!(record.amount, untouched.amount);
}

#[test]
fn voucher_can_be_used_again_after_reactivation() {
    let mut voucher = fresh_voucher();
    let mut record = fresh_record();
    update_voucher_status(&mut voucher, 5, &mut record, VoucherStatus::Used, NOW + 10).unwrap();
    update_voucher_status(&mut voucher, 5, &mut record, VoucherStatus::Active, NOW + 20)
        .unwrap();
    let again =
        update_voucher_status(&mut voucher, 5, &mut record, VoucherStatus::Used, NOW + 30);
    assert!(again.is_ok());
    assert_eq!(voucher.used_at, Some(NOW + 30));
}

#[test]
fn active_voucher_cannot_be_reactivated() {
    let mut voucher = fresh_voucher();
    let mut record = fresh_record();
    let result =
        update_voucher_status(&mut voucher, 5, &mut record, VoucherStatus::Active, NOW + 10);
    assert_eq!(result.unwrap_err(), SolcityError::VoucherAlreadyUsed);
}

#[test]
fn revoke_is_permitted_from_any_state() {
    let mut voucher = fresh_voucher();
    let mut record = fresh_record();
    update_voucher_status(&mut voucher, 5, &mut record, VoucherStatus::Used, NOW + 10).unwrap();
    let revoked =
        update_voucher_status(&mut voucher, 5, &mut record, VoucherStatus::Revoked, NOW + 20);
    assert!(revoked.is_ok());
    assert_eq!(voucher.used_at, Some(NOW + 20));
}
