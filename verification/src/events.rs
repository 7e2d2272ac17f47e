//! Structured records of what each operation computed and changed, produced
//! for off-system consumption (analytics, notifications). An event is an
//! output contract of its operation, not a side effect.

use vstd::prelude::*;
use crate::customer::CustomerTier;
use crate::redemption_offer::RedemptionType;

verus! {

/// A merchant registered.
#[derive(Debug)]
pub struct MerchantRegisteredEvent {
    pub merchant: u64,
    pub authority: u64,
    pub name: String,
    pub reward_rate: u64,
    pub timestamp: i64,
}

/// A customer registered.
#[derive(Debug)]
pub struct CustomerRegisteredEvent {
    pub customer: u64,
    pub wallet: u64,
    pub merchant: u64,
    pub timestamp: i64,
}

/// Rewards were issued: the full computation behind one issuance.
#[derive(Debug)]
pub struct RewardsIssuedEvent {
    pub merchant: u64,
    pub merchant_authority: u64,
    pub customer: u64,
    pub customer_wallet: u64,
    /// Purchase amount in minor currency units.
    pub purchase_amount: u64,
    pub base_reward: u64,
    pub tier_multiplier: u64,
    pub rule_multiplier: u64,
    pub rule_applied: bool,
    pub rule_name: Option<String>,
    pub final_reward: u64,
    pub customer_tier: CustomerTier,
    pub platform_fee: u64,
    pub timestamp: i64,
}

/// Rewards were redeemed for an offer.
#[derive(Debug)]
pub struct RewardsRedeemedEvent {
    pub customer: u64,
    pub customer_wallet: u64,
    pub merchant: u64,
    pub offer_name: String,
    pub amount: u64,
    pub redemption_type: RedemptionType,
    pub redemption_code: String,
    pub voucher: u64,
    pub timestamp: i64,
}

/// A reward rule was created, updated, toggled or deleted.
#[derive(Debug)]
pub struct RewardRuleEvent {
    pub merchant: u64,
    pub rule_id: u64,
    pub name: String,
    pub multiplier: u64,
    pub min_purchase: u64,
    pub is_active: bool,
    pub start_time: i64,
    pub end_time: i64,
    pub action: String,
    pub timestamp: i64,
}

/// A redemption offer was created, updated, toggled or deleted.
#[derive(Debug)]
pub struct RedemptionOfferEvent {
    pub merchant: u64,
    pub offer: u64,
    pub name: String,
    pub cost: u64,
    pub offer_type: RedemptionType,
    pub is_active: bool,
    pub quantity_available: Option<u64>,
    pub quantity_claimed: u64,
    pub action: String,
    pub timestamp: i64,
}

/// A merchant profile was updated.
#[derive(Debug)]
pub struct MerchantUpdatedEvent {
    pub merchant: u64,
    pub name: Option<String>,
    pub reward_rate: Option<u64>,
    pub timestamp: i64,
}

/// A customer's tier changed as a result of an issuance.
#[derive(Debug)]
pub struct TierUpgradeEvent {
    pub customer: u64,
    pub customer_wallet: u64,
    pub old_tier: CustomerTier,
    pub new_tier: CustomerTier,
    pub total_earned: u64,
    pub timestamp: i64,
}

/// A voucher was consumed at the merchant.
#[derive(Debug)]
pub struct VoucherUsedEvent {
    pub voucher: u64,
    pub customer: u64,
    pub merchant: u64,
    pub offer_name: String,
    pub redemption_code: String,
    pub timestamp: i64,
}

} // verus!
