//! The redemption orchestrator: validate the offer's availability and the
//! customer's balance, account the burned points into every affected total,
//! and create the voucher, transaction record and analytics record as one
//! all-or-nothing unit. The voucher carries a human-presentable redemption
//! code derived deterministically from the caller's seed.

use vstd::prelude::*;
use vstd::string::StringExecFns;
use crate::constants::VOUCHER_VALIDITY_SECONDS;
use crate::customer::{Customer, tier_rank};
use crate::errors::SolcityError;
use crate::events::RewardsRedeemedEvent;
use crate::loyalty_program::LoyaltyProgram;
use crate::merchant::Merchant;
use crate::records::{MerchantCustomerRecord, OfferRedemptionRecord, TransactionRecord,
    TRANSACTION_REDEEMED};
use crate::redemption_offer::{RedemptionOffer, available};
use crate::redemption_voucher::RedemptionVoucher;
use crate::use_voucher::record_mirrors_voucher;

verus! {

/// The uppercase hexadecimal digit of a value below 16.
pub open spec fn hex_digit(value: u64) -> char {
    if value == 0 {
        '0'
    } else if value == 1 {
        '1'
    } else if value == 2 {
        '2'
    } else if value == 3 {
        '3'
    } else if value == 4 {
        '4'
    } else if value == 5 {
        '5'
    } else if value == 6 {
        '6'
    } else if value == 7 {
        '7'
    } else if value == 8 {
        '8'
    } else if value == 9 {
        '9'
    } else if value == 10 {
        'A'
    } else if value == 11 {
        'B'
    } else if value == 12 {
        'C'
    } else if value == 13 {
        'D'
    } else if value == 14 {
        'E'
    } else {
        'F'
    }
}

/// A value rendered as four uppercase hexadecimal digits, most significant
/// first (the value is taken modulo 65536).
pub open spec fn hex4(value: u64) -> Seq<char> {
    seq![
        hex_digit(value / 4096 % 16),
        hex_digit(value / 256 % 16),
        hex_digit(value / 16 % 16),
        hex_digit(value % 16),
    ]
}

/// The redemption code of a voucher seed: `SLCY-` followed by the four hex
/// digits of `seed mod 10000`, a dash, and the four hex digits of
/// `(seed / 10000) mod 10000`.
pub open spec fn redemption_code_of(seed: u64) -> Seq<char> {
    seq!['S', 'L', 'C', 'Y', '-'] + hex4(seed % 10000) + seq!['-'] + hex4(seed / 10000 % 10000)
}

/// The uppercase hexadecimal digit of `value`, which must be below 16, as a
/// one-character string slice.
fn hex_digit_str(value: u64) -> (digit: &'static str)
    requires
        value < 16,
    ensures
        digit@ =~= seq![hex_digit(value)],
{
    proof {
        reveal_strlit("0");
        reveal_strlit("1");
        reveal_strlit("2");
        reveal_strlit("3");
        reveal_strlit("4");
        reveal_strlit("5");
        reveal_strlit("6");
        reveal_strlit("7");
        reveal_strlit("8");
        reveal_strlit("9");
        reveal_strlit("A");
        reveal_strlit("B");
        reveal_strlit("C");
        reveal_strlit("D");
        reveal_strlit("E");
        reveal_strlit("F");
    }
    if value == 0 {
        "0"
    } else if value == 1 {
        "1"
    } else if value == 2 {
        "2"
    } else if value == 3 {
        "3"
    } else if value == 4 {
        "4"
    } else if value == 5 {
        "5"
    } else if value == 6 {
        "6"
    } else if value == 7 {
        "7"
    } else if value == 8 {
        "8"
    } else if value == 9 {
        "9"
    } else if value == 10 {
        "A"
    } else if value == 11 {
        "B"
    } else if value == 12 {
        "C"
    } else if value == 13 {
        "D"
    } else if value == 14 {
        "E"
    } else {
        "F"
    }
}

/// Append the four-hex-digit rendering of `value mod 65536` to `code`.
fn append_hex4(code: &mut String, value: u64)
    ensures
        final(code)@ == old(code)@ + hex4(value),
{
    code.append(hex_digit_str(value / 4096 % 16));
    code.append(hex_digit_str(value / 256 % 16));
    code.append(hex_digit_str(value / 16 % 16));
    code.append(hex_digit_str(value % 16));
    assert(code@ =~= old(code)@ + hex4(value));
}

/// Build the human-presentable redemption code for a voucher seed. The code
/// depends on the seed alone; callers keep seeds unique per redemption to
/// keep codes unique.
pub fn generate_redemption_code(voucher_seed: u64) -> (code: String)
    ensures
        code@ == redemption_code_of(voucher_seed),
{
    let mut code = String::from_str("SLCY-");
    proof {
        reveal_strlit("SLCY-");
        assert(code@ =~= seq!['S', 'L', 'C', 'Y', '-']);
    }
    append_hex4(&mut code, voucher_seed % 10000);
    code.append("-");
    proof {
        reveal_strlit("-");
        assert("-"@ =~= seq!['-']);
    }
    append_hex4(&mut code, voucher_seed / 10000 % 10000);
    assert(code@ =~= redemption_code_of(voucher_seed));
    code
}

/// Everything a successful redemption hands back: the voucher, the two
/// append-only records, and the event for off-system consumption. The
/// burned amount is the offer's cost, reported in the event.
#[derive(Debug)]
pub struct RedemptionOutcome {
    /// The receipt the customer presents at the merchant.
    pub voucher: RedemptionVoucher,
    /// The append-only history entry for the customer.
    pub transaction_record: TransactionRecord,
    /// The append-only analytics record mirroring the voucher's use state.
    pub offer_redemption_record: OfferRedemptionRecord,
    /// The structured record of the redemption.
    pub event: RewardsRedeemedEvent,
}

/// Why redeeming with these inputs is rejected, or `None` when it succeeds.
/// Checks run in this order: the offer's availability, the customer's
/// balance, and overflow of the voucher expiry and of each running total
/// (the pair record's only when the pair already has history).
pub open spec fn redeem_rewards_error(
    program: LoyaltyProgram,
    merchant: Merchant,
    customer: Customer,
    offer: RedemptionOffer,
    pair_record: MerchantCustomerRecord,
    customer_balance: u64,
    now: i64,
) -> Option<SolcityError> {
    if !available(offer, now) {
        Some(SolcityError::OfferNotAvailable)
    } else if customer_balance < offer.cost {
        Some(SolcityError::InsufficientBalance)
    } else if now + VOUCHER_VALIDITY_SECONDS > i64::MAX {
        Some(SolcityError::Overflow)
    } else if customer.total_redeemed + offer.cost > u64::MAX {
        Some(SolcityError::Overflow)
    } else if merchant.total_redeemed + offer.cost > u64::MAX {
        Some(SolcityError::Overflow)
    } else if program.total_tokens_redeemed + offer.cost > u64::MAX {
        Some(SolcityError::Overflow)
    } else if offer.quantity_claimed + 1 > u64::MAX {
        Some(SolcityError::Overflow)
    } else if customer.transaction_count + 1 > u64::MAX {
        Some(SolcityError::Overflow)
    } else if pair_record.merchant != 0 && pair_record.total_redeemed + offer.cost > u64::MAX {
        Some(SolcityError::Overflow)
    } else if pair_record.merchant != 0 && pair_record.transaction_count + 1 > u64::MAX {
        Some(SolcityError::Overflow)
    } else {
        None
    }
}

/// Redeem an offer for a customer.
///
/// The burn of `offer.cost` points moves through the external balance
/// capability; `customer_balance` is the balance it sees. On success every
/// running total grows by the cost, the offer's claimed count grows by one
/// (never past its limit), the pair record is initialized from zero on the
/// pair's first interaction, and the outcome carries the voucher, both
/// append-only records and the event. On any rejection no record changes.
pub fn redeem_rewards(
    program: &mut LoyaltyProgram,
    merchant: &mut Merchant,
    merchant_key: u64,
    customer: &mut Customer,
    customer_key: u64,
    offer: &mut RedemptionOffer,
    offer_key: u64,
    pair_record: &mut MerchantCustomerRecord,
    customer_balance: u64,
    voucher_seed: u64,
    voucher_key: u64,
    now: i64,
) -> (result: Result<RedemptionOutcome, SolcityError>)
    ensures
        result is Ok <==> redeem_rewards_error(
            *old(program),
            *old(merchant),
            *old(customer),
            *old(offer),
            *old(pair_record),
            customer_balance,
            now,
        ) is None,
        result matches Err(e) ==> {
            &&& Some(e) == redeem_rewards_error(
                *old(program),
                *old(merchant),
                *old(customer),
                *old(offer),
                *old(pair_record),
                customer_balance,
                now,
            )
            &&& *final(program) == *old(program)
            &&& *final(merchant) == *old(merchant)
            &&& *final(customer) == *old(customer)
            &&& *final(offer) == *old(offer)
            &&& *final(pair_record) == *old(pair_record)
        },
        result matches Ok(outcome) ==> ({
            let cost = old(offer).cost;
            &&& *final(customer) == (Customer {
                total_redeemed: (old(customer).total_redeemed + cost) as u64,
                transaction_count: (old(customer).transaction_count + 1) as u64,
                last_activity: now,
                ..*old(customer)
            })
            &&& *final(merchant) == (Merchant {
                total_redeemed: (old(merchant).total_redeemed + cost) as u64,
                ..*old(merchant)
            })
            &&& *final(program) == (LoyaltyProgram {
                total_tokens_redeemed: (old(program).total_tokens_redeemed + cost) as u64,
                ..*old(program)
            })
            &&& *final(offer) == (RedemptionOffer {
                quantity_claimed: (old(offer).quantity_claimed + 1) as u64,
                ..*old(offer)
            })
            &&& final(offer).wf()
            &&& (old(pair_record).merchant == 0 ==> *final(pair_record)
                == (MerchantCustomerRecord {
                merchant: merchant_key,
                customer: old(customer).wallet,
                total_issued: 0,
                total_redeemed: cost,
                transaction_count: 1,
                first_transaction: now,
                last_transaction: now,
            }))
            &&& (old(pair_record).merchant != 0 ==> *final(pair_record)
                == (MerchantCustomerRecord {
                total_redeemed: (old(pair_record).total_redeemed + cost) as u64,
                transaction_count: (old(pair_record).transaction_count + 1) as u64,
                last_transaction: now,
                ..*old(pair_record)
            }))
            &&& outcome.voucher.customer == old(customer).wallet
            &&& outcome.voucher.merchant == merchant_key
            &&& outcome.voucher.redemption_offer == offer_key
            &&& outcome.voucher.merchant_name@ == old(merchant).name@
            &&& outcome.voucher.offer_name@ == old(offer).name@
            &&& outcome.voucher.offer_description@ == old(offer).description@
            &&& outcome.voucher.cost == cost
            &&& outcome.voucher.redemption_code@ == redemption_code_of(voucher_seed)
            &&& outcome.voucher.created_at == now
            &&& outcome.voucher.expires_at == now + VOUCHER_VALIDITY_SECONDS
            &&& !outcome.voucher.is_used
            &&& outcome.voucher.used_at is None
            &&& outcome.transaction_record == (TransactionRecord {
                customer: old(customer).wallet,
                merchant: merchant_key,
                transaction_type: TRANSACTION_REDEEMED,
                amount: cost,
                tier: tier_rank(old(customer).tier) as u8,
                timestamp: now,
                index: old(customer).transaction_count,
            })
            &&& outcome.offer_redemption_record == (OfferRedemptionRecord {
                offer: offer_key,
                merchant: merchant_key,
                customer: old(customer).wallet,
                voucher: voucher_key,
                amount: cost,
                timestamp: now,
                is_used: false,
                used_at: None,
            })
            &&& record_mirrors_voucher(outcome.offer_redemption_record, outcome.voucher)
            &&& outcome.event.customer == customer_key
            &&& outcome.event.customer_wallet == old(customer).wallet
            &&& outcome.event.merchant == merchant_key
            &&& outcome.event.offer_name@ == old(offer).name@
            &&& outcome.event.amount == cost
            &&& outcome.event.redemption_type == old(offer).offer_type
            &&& outcome.event.redemption_code@ == redemption_code_of(voucher_seed)
            &&& outcome.event.voucher == voucher_key
            &&& outcome.event.timestamp == now
        }),
        old(offer).wf() ==> final(offer).wf(),
        old(customer).total_redeemed <= final(customer).total_redeemed,
        old(merchant).total_redeemed <= final(merchant).total_redeemed,
        old(program).total_tokens_redeemed <= final(program).total_tokens_redeemed,
        final(customer).tier == old(customer).tier,
        final(customer).total_earned == old(customer).total_earned,
{
    if !offer.is_available(now) {
        return Err(SolcityError::OfferNotAvailable);
    }
    let cost = offer.cost;
    if customer_balance < cost {
        return Err(SolcityError::InsufficientBalance);
    }
    let expires_at = match now.checked_add(VOUCHER_VALIDITY_SECONDS) {
        Some(expires_at) => expires_at,
        None => {
            return Err(SolcityError::Overflow);
        },
    };
    let new_customer_redeemed = match customer.total_redeemed.checked_add(cost) {
        Some(total) => total,
        None => {
            return Err(SolcityError::Overflow);
        },
    };
    let new_merchant_redeemed = match merchant.total_redeemed.checked_add(cost) {
        Some(total) => total,
        None => {
            return Err(SolcityError::Overflow);
        },
    };
    let new_program_redeemed = match program.total_tokens_redeemed.checked_add(cost) {
        Some(total) => total,
        None => {
            return Err(SolcityError::Overflow);
        },
    };
    let new_quantity_claimed = match offer.quantity_claimed.checked_add(1) {
        Some(claimed) => claimed,
        None => {
            return Err(SolcityError::Overflow);
        },
    };
    let new_transaction_count = match customer.transaction_count.checked_add(1) {
        Some(count) => count,
        None => {
            return Err(SolcityError::Overflow);
        },
    };
    let first_contact = pair_record.merchant == 0;
    let (new_pair_redeemed, new_pair_count) = if first_contact {
        (cost, 1u64)
    } else {
        let redeemed = match pair_record.total_redeemed.checked_add(cost) {
            Some(total) => total,
            None => {
                return Err(SolcityError::Overflow);
            },
        };
        let count = match pair_record.transaction_count.checked_add(1) {
            Some(count) => count,
            None => {
                return Err(SolcityError::Overflow);
            },
        };
        (redeemed, count)
    };

    let redemption_code = generate_redemption_code(voucher_seed);
    let customer_wallet = customer.wallet;

    let voucher = RedemptionVoucher {
        customer: customer_wallet,
        merchant: merchant_key,
        redemption_offer: offer_key,
        merchant_name: merchant.name.clone(),
        offer_name: offer.name.clone(),
        offer_description: offer.description.clone(),
        cost,
        redemption_code: redemption_code.clone(),
        created_at: now,
        expires_at,
        is_used: false,
        used_at: None,
    };

    customer.total_redeemed = new_customer_redeemed;
    merchant.total_redeemed = new_merchant_redeemed;
    program.total_tokens_redeemed = new_program_redeemed;
    offer.quantity_claimed = new_quantity_claimed;
    customer.last_activity = now;
    let transaction_index = customer.transaction_count;
    customer.transaction_count = new_transaction_count;

    let transaction_record = TransactionRecord {
        customer: customer_wallet,
        merchant: merchant_key,
        transaction_type: TRANSACTION_REDEEMED,
        amount: cost,
        tier: customer.tier.index(),
        timestamp: now,
        index: transaction_index,
    };

    if first_contact {
        pair_record.merchant = merchant_key;
        pair_record.customer = customer_wallet;
        pair_record.total_issued = 0;
        pair_record.total_redeemed = new_pair_redeemed;
        pair_record.transaction_count = new_pair_count;
        pair_record.first_transaction = now;
        pair_record.last_transaction = now;
    } else {
        pair_record.total_redeemed = new_pair_redeemed;
        pair_record.transaction_count = new_pair_count;
        pair_record.last_transaction = now;
    }

    let offer_redemption_record = OfferRedemptionRecord {
        offer: offer_key,
        merchant: merchant_key,
        customer: customer_wallet,
        voucher: voucher_key,
        amount: cost,
        timestamp: now,
        is_used: false,
        used_at: None,
    };

    let event = RewardsRedeemedEvent {
        customer: customer_key,
        customer_wallet,
        merchant: merchant_key,
        offer_name: offer.name.clone(),
        amount: cost,
        redemption_type: offer.offer_type.clone(),
        redemption_code,
        voucher: voucher_key,
        timestamp: now,
    };

    Ok(RedemptionOutcome { voucher, transaction_record, offer_redemption_record, event })
}

} // verus!
