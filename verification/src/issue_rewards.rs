//! The issuance orchestrator: compute the reward for a purchase from the
//! merchant's base rate, the customer's tier multiplier and an optional
//! promotional rule, compute the platform fee, and update the customer,
//! merchant and program records as one all-or-nothing unit, re-deriving the
//! customer's tier.
//!
//! All arithmetic is overflow-checked; any overflow rejects the whole
//! operation. Division truncates toward zero, so a purchase too small for a
//! whole token rounds down and is rejected rather than issued as zero.

use vstd::prelude::*;
use crate::constants::{ISSUANCE_FEE_PER_TOKEN, PERCENTAGE_DIVISOR};
use crate::customer::{Customer, tier_of, tier_multiplier_of};
use crate::errors::SolcityError;
use crate::events::{RewardsIssuedEvent, TierUpgradeEvent};
use crate::loyalty_program::LoyaltyProgram;
use crate::merchant::Merchant;
use crate::reward_rule::{RewardRule, rule_applies};

verus! {

/// Everything a successful issuance hands back: the full computation record,
/// and the tier change when the issuance caused one.
#[derive(Debug)]
pub struct IssuanceOutcome {
    /// The structured record of the computation, for off-system consumption.
    pub event: RewardsIssuedEvent,
    /// The tier change, when the new lifetime total moved the customer to
    /// another tier.
    pub tier_upgrade: Option<TierUpgradeEvent>,
}

/// The promotional rule as a value, for speaking about an optional borrowed
/// rule in specifications.
pub open spec fn deref_rule(rule: Option<&RewardRule>) -> Option<RewardRule> {
    match rule {
        Some(r) => Some(*r),
        None => None,
    }
}

/// The base reward of a purchase: amount in minor units, times the
/// merchant's tokens-per-major-unit rate, divided by the percentage divisor
/// and by the minor-per-major conversion, truncating.
pub open spec fn base_reward_of(purchase_amount: u64, reward_rate: u64) -> int {
    purchase_amount * reward_rate / (PERCENTAGE_DIVISOR as int) / 100
}

/// An amount scaled by a multiplier in hundredths, truncating.
pub open spec fn adjusted(amount: int, multiplier: u64) -> int {
    amount * multiplier / (PERCENTAGE_DIVISOR as int)
}

/// Whether the optional rule contributes its multiplier to this purchase.
pub open spec fn rule_applied_for(rule: Option<RewardRule>, purchase_amount: u64, now: i64) -> bool {
    match rule {
        Some(r) => rule_applies(r, purchase_amount, now),
        None => false,
    }
}

/// The multiplier the optional rule contributes: its own when it applies,
/// else the neutral 100.
pub open spec fn rule_multiplier_for(
    rule: Option<RewardRule>,
    purchase_amount: u64,
    now: i64,
) -> u64 {
    match rule {
        Some(r) => if rule_applies(r, purchase_amount, now) {
            r.multiplier
        } else {
            100
        },
        None => 100,
    }
}

/// The final reward of an issuance: the base reward adjusted by the tier
/// multiplier, then by the rule multiplier when a rule applies.
pub open spec fn issued_reward(
    merchant: Merchant,
    customer: Customer,
    rule: Option<RewardRule>,
    purchase_amount: u64,
    now: i64,
) -> int {
    let tier_adjusted = adjusted(
        base_reward_of(purchase_amount, merchant.reward_rate),
        tier_multiplier_of(customer.tier),
    );
    if rule_applied_for(rule, purchase_amount, now) {
        adjusted(tier_adjusted, rule_multiplier_for(rule, purchase_amount, now))
    } else {
        tier_adjusted
    }
}

/// Why issuing with these inputs is rejected, or `None` when it succeeds.
/// Checks run in this order: a zero purchase, an inactive merchant, overflow
/// at each multiplication of the reward computation, a reward that rounds to
/// zero, overflow of the fee, and overflow of each running total.
pub open spec fn issue_rewards_error(
    program: LoyaltyProgram,
    merchant: Merchant,
    customer: Customer,
    rule: Option<RewardRule>,
    purchase_amount: u64,
    now: i64,
) -> Option<SolcityError> {
    let base = base_reward_of(purchase_amount, merchant.reward_rate);
    let tier_adjusted = adjusted(base, tier_multiplier_of(customer.tier));
    let reward = issued_reward(merchant, customer, rule, purchase_amount, now);
    if purchase_amount == 0 {
        Some(SolcityError::InvalidRewardAmount)
    } else if !merchant.is_active {
        Some(SolcityError::MerchantNotActive)
    } else if purchase_amount * merchant.reward_rate > u64::MAX {
        Some(SolcityError::Overflow)
    } else if base * tier_multiplier_of(customer.tier) > u64::MAX {
        Some(SolcityError::Overflow)
    } else if rule_applied_for(rule, purchase_amount, now) && tier_adjusted * rule_multiplier_for(
        rule,
        purchase_amount,
        now,
    ) > u64::MAX {
        Some(SolcityError::Overflow)
    } else if reward == 0 {
        Some(SolcityError::InvalidRewardAmount)
    } else if reward * ISSUANCE_FEE_PER_TOKEN > u64::MAX {
        Some(SolcityError::Overflow)
    } else if program.total_fees_collected + reward * ISSUANCE_FEE_PER_TOKEN > u64::MAX {
        Some(SolcityError::Overflow)
    } else if merchant.total_issued + reward > u64::MAX {
        Some(SolcityError::Overflow)
    } else if customer.total_earned + reward > u64::MAX {
        Some(SolcityError::Overflow)
    } else if customer.transaction_count + 1 > u64::MAX {
        Some(SolcityError::Overflow)
    } else if program.total_tokens_issued + reward > u64::MAX {
        Some(SolcityError::Overflow)
    } else {
        None
    }
}

/// Issue reward tokens to a customer for a purchase.
///
/// On success the platform fee is accounted into the program totals (the
/// transfer itself, and the minting of the reward, move through the external
/// capabilities), the merchant, customer and program running totals grow by
/// the reward, the customer's tier is re-derived, and the outcome reports
/// the whole computation together with any tier change. On any rejection no
/// record changes. Lifetime totals never decrease.
pub fn issue_rewards(
    program: &mut LoyaltyProgram,
    merchant: &mut Merchant,
    merchant_key: u64,
    customer: &mut Customer,
    customer_key: u64,
    reward_rule: Option<&RewardRule>,
    purchase_amount: u64,
    now: i64,
) -> (result: Result<IssuanceOutcome, SolcityError>)
    ensures
        result is Ok <==> issue_rewards_error(
            *old(program),
            *old(merchant),
            *old(customer),
            deref_rule(reward_rule),
            purchase_amount,
            now,
        ) is None,
        result matches Err(e) ==> {
            &&& Some(e) == issue_rewards_error(
                *old(program),
                *old(merchant),
                *old(customer),
                deref_rule(reward_rule),
                purchase_amount,
                now,
            )
            &&& *final(program) == *old(program)
            &&& *final(merchant) == *old(merchant)
            &&& *final(customer) == *old(customer)
        },
        result matches Ok(outcome) ==> ({
            let rule = deref_rule(reward_rule);
            let applied = rule_applied_for(rule, purchase_amount, now);
            let reward = issued_reward(*old(merchant), *old(customer), rule, purchase_amount, now);
            let fee = reward * ISSUANCE_FEE_PER_TOKEN;
            let new_total = (old(customer).total_earned + reward) as u64;
            &&& *final(merchant) == (Merchant {
                total_issued: (old(merchant).total_issued + reward) as u64,
                ..*old(merchant)
            })
            &&& *final(customer) == (Customer {
                total_earned: new_total,
                tier: tier_of(new_total),
                transaction_count: (old(customer).transaction_count + 1) as u64,
                last_activity: now,
                ..*old(customer)
            })
            &&& final(customer).wf()
            &&& *final(program) == (LoyaltyProgram {
                total_tokens_issued: (old(program).total_tokens_issued + reward) as u64,
                total_fees_collected: (old(program).total_fees_collected + fee) as u64,
                ..*old(program)
            })
            &&& outcome.event.merchant == merchant_key
            &&& outcome.event.merchant_authority == old(merchant).authority
            &&& outcome.event.customer == customer_key
            &&& outcome.event.customer_wallet == old(customer).wallet
            &&& outcome.event.purchase_amount == purchase_amount
            &&& outcome.event.base_reward == base_reward_of(
                purchase_amount,
                old(merchant).reward_rate,
            )
            &&& outcome.event.tier_multiplier == tier_multiplier_of(old(customer).tier)
            &&& outcome.event.rule_multiplier == rule_multiplier_for(rule, purchase_amount, now)
            &&& outcome.event.rule_applied == applied
            &&& (applied ==> (outcome.event.rule_name matches Some(name) && rule matches Some(r)
                && name@ == r.name@))
            &&& (!applied ==> outcome.event.rule_name is None)
            &&& outcome.event.final_reward == reward
            &&& outcome.event.customer_tier == tier_of(new_total)
            &&& outcome.event.platform_fee == fee
            &&& outcome.event.timestamp == now
            &&& (tier_of(new_total) == old(customer).tier ==> outcome.tier_upgrade is None)
            &&& (tier_of(new_total) != old(customer).tier ==> (outcome.tier_upgrade matches Some(
                upgrade,
            ) && {
                &&& upgrade.customer == customer_key
                &&& upgrade.customer_wallet == old(customer).wallet
                &&& upgrade.old_tier == old(customer).tier
                &&& upgrade.new_tier == tier_of(new_total)
                &&& upgrade.total_earned == new_total
                &&& upgrade.timestamp == now
            }))
        }),
        old(customer).total_earned <= final(customer).total_earned,
        old(merchant).total_issued <= final(merchant).total_issued,
        old(program).total_tokens_issued <= final(program).total_tokens_issued,
{
    if purchase_amount == 0 {
        return Err(SolcityError::InvalidRewardAmount);
    }
    if !merchant.is_active {
        return Err(SolcityError::MerchantNotActive);
    }

    let product = match purchase_amount.checked_mul(merchant.reward_rate) {
        Some(product) => product,
        None => {
            return Err(SolcityError::Overflow);
        },
    };
    let base_reward = product / PERCENTAGE_DIVISOR / 100;

    let tier_multiplier = customer.get_tier_multiplier();
    let tier_product = match base_reward.checked_mul(tier_multiplier) {
        Some(product) => product,
        None => {
            return Err(SolcityError::Overflow);
        },
    };
    let tier_adjusted = tier_product / PERCENTAGE_DIVISOR;

    let mut rule_applied = false;
    let mut rule_multiplier: u64 = 100;
    let mut rule_name: Option<String> = None;
    let mut final_reward = tier_adjusted;
    if let Some(rule) = reward_rule {
        if rule.is_currently_active(now) && purchase_amount >= rule.min_purchase {
            let rule_product = match tier_adjusted.checked_mul(rule.multiplier) {
                Some(product) => product,
                None => {
                    return Err(SolcityError::Overflow);
                },
            };
            final_reward = rule_product / PERCENTAGE_DIVISOR;
            rule_applied = true;
            rule_multiplier = rule.multiplier;
            rule_name = Some(rule.name.clone());
        }
    }

    if final_reward == 0 {
        return Err(SolcityError::InvalidRewardAmount);
    }

    let platform_fee = match final_reward.checked_mul(ISSUANCE_FEE_PER_TOKEN) {
        Some(fee) => fee,
        None => {
            return Err(SolcityError::Overflow);
        },
    };
    let new_fees_collected = if platform_fee > 0 {
        match program.total_fees_collected.checked_add(platform_fee) {
            Some(total) => total,
            None => {
                return Err(SolcityError::Overflow);
            },
        }
    } else {
        program.total_fees_collected
    };
    let new_merchant_issued = match merchant.total_issued.checked_add(final_reward) {
        Some(total) => total,
        None => {
            return Err(SolcityError::Overflow);
        },
    };
    let new_total_earned = match customer.total_earned.checked_add(final_reward) {
        Some(total) => total,
        None => {
            return Err(SolcityError::Overflow);
        },
    };
    let new_transaction_count = match customer.transaction_count.checked_add(1) {
        Some(count) => count,
        None => {
            return Err(SolcityError::Overflow);
        },
    };
    let new_program_issued = match program.total_tokens_issued.checked_add(final_reward) {
        Some(total) => total,
        None => {
            return Err(SolcityError::Overflow);
        },
    };

    program.total_fees_collected = new_fees_collected;
    merchant.total_issued = new_merchant_issued;
    customer.total_earned = new_total_earned;
    customer.transaction_count = new_transaction_count;
    customer.last_activity = now;
    program.total_tokens_issued = new_program_issued;

    let old_tier = customer.tier;
    let new_tier = Customer::calculate_tier(customer.total_earned);
    customer.tier = new_tier;
    let tier_upgrade = if new_tier != old_tier {
        Some(TierUpgradeEvent {
            customer: customer_key,
            customer_wallet: customer.wallet,
            old_tier,
            new_tier,
            total_earned: customer.total_earned,
            timestamp: now,
        })
    } else {
        None
    };

    Ok(IssuanceOutcome {
        event: RewardsIssuedEvent {
            merchant: merchant_key,
            merchant_authority: merchant.authority,
            customer: customer_key,
            customer_wallet: customer.wallet,
            purchase_amount,
            base_reward,
            tier_multiplier,
            rule_multiplier,
            rule_applied,
            rule_name,
            final_reward,
            customer_tier: new_tier,
            platform_fee,
            timestamp: now,
        },
        tier_upgrade,
    })
}

} // verus!
