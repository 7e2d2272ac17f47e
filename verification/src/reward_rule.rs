//! Merchant-defined promotional rules: time-bounded multipliers that apply to
//! purchases above a minimum amount, and their create/update/toggle
//! lifecycle.

use vstd::prelude::*;
use vstd::string::StrSliceExecFns;
use crate::constants::MAX_RULE_NAME_LEN;
use crate::errors::SolcityError;

verus! {

#[derive(Clone, Copy, Debug, PartialEq, Eq, Structural)]
pub enum RuleType {
    /// Standard earning rate.
    BaseReward,
    /// 2x, 3x events.
    BonusMultiplier,
    /// One-time bonus.
    FirstPurchaseBonus,
    /// Referral rewards.
    ReferralBonus,
    /// Tier-based multiplier.
    TierBonus,
    /// Consecutive activity bonus.
    StreakBonus,
}

/// One promotional rule owned by a merchant. The activity window is
/// `[start_time, end_time]`, where 0 means unbounded on that side.
#[derive(Clone, Debug)]
pub struct RewardRule {
    /// Identity of the merchant this rule belongs to.
    pub merchant: u64,
    /// Rule identifier, unique per merchant.
    pub rule_id: u64,
    /// Rule name.
    pub name: String,
    /// Rule kind.
    pub rule_type: RuleType,
    /// Bonus multiplier in hundredths (100 = 1.0x, 200 = 2.0x).
    pub multiplier: u64,
    /// Minimum purchase to trigger, in minor currency units.
    pub min_purchase: u64,
    /// Active status.
    pub is_active: bool,
    /// Start time (0 = immediate).
    pub start_time: i64,
    /// End time (0 = no expiry).
    pub end_time: i64,
}

/// Whether a rule is in force at `now`: it is switched on, its window has
/// started, and its window has not ended.
pub open spec fn currently_active(rule: RewardRule, now: i64) -> bool {
    &&& rule.is_active
    &&& rule.start_time == 0 || now >= rule.start_time
    &&& rule.end_time == 0 || now <= rule.end_time
}

/// Whether a rule contributes its multiplier to a purchase of
/// `purchase_amount` at `now`: it is in force and the purchase meets its
/// minimum.
pub open spec fn rule_applies(rule: RewardRule, purchase_amount: u64, now: i64) -> bool {
    currently_active(rule, now) && purchase_amount >= rule.min_purchase
}

impl RewardRule {
    /// A bounded activity window ends after it starts.
    pub open spec fn wf(&self) -> bool {
        self.end_time != 0 ==> self.end_time > self.start_time
    }

    /// Check whether the rule is in force at `current_time`.
    pub fn is_currently_active(&self, current_time: i64) -> (active: bool)
        ensures
            active == currently_active(*self, current_time),
    {
        if !self.is_active {
            return false;
        }
        let after_start = self.start_time == 0 || current_time >= self.start_time;
        let before_end = self.end_time == 0 || current_time <= self.end_time;
        after_start && before_end
    }
}

/// Why creating a rule with these inputs is rejected, or `None` when it is
/// accepted.
pub open spec fn set_reward_rule_error(
    name: Seq<char>,
    multiplier: u64,
    start_time: i64,
    end_time: i64,
) -> Option<SolcityError> {
    if name.len() == 0 {
        Some(SolcityError::NameEmpty)
    } else if name.len() > MAX_RULE_NAME_LEN {
        Some(SolcityError::NameTooLong)
    } else if multiplier < 100 {
        Some(SolcityError::InvalidRewardAmount)
    } else if end_time != 0 && end_time <= start_time {
        Some(SolcityError::InvalidTimeRange)
    } else {
        None
    }
}

/// Create a reward rule for a merchant. The multiplier must be at least
/// neutral (100 = 1.0x) and a bounded window must end after it starts; a
/// fresh rule starts out active.
pub fn set_reward_rule(
    merchant_key: u64,
    rule_id: u64,
    name: String,
    rule_type: RuleType,
    multiplier: u64,
    min_purchase: u64,
    start_time: i64,
    end_time: i64,
) -> (result: Result<RewardRule, SolcityError>)
    ensures
        result is Ok <==> set_reward_rule_error(name@, multiplier, start_time, end_time) is None,
        result matches Err(e) ==> Some(e) == set_reward_rule_error(
            name@,
            multiplier,
            start_time,
            end_time,
        ),
        result matches Ok(rule) ==> {
            &&& rule.merchant == merchant_key
            &&& rule.rule_id == rule_id
            &&& rule.name@ == name@
            &&& rule.rule_type == rule_type
            &&& rule.multiplier == multiplier
            &&& rule.min_purchase == min_purchase
            &&& rule.is_active
            &&& rule.start_time == start_time
            &&& rule.end_time == end_time
            &&& rule.wf()
        },
{
    let name_len = name.as_str().unicode_len();
    if name_len == 0 {
        return Err(SolcityError::NameEmpty);
    }
    if name_len > MAX_RULE_NAME_LEN {
        return Err(SolcityError::NameTooLong);
    }
    if multiplier < 100 {
        return Err(SolcityError::InvalidRewardAmount);
    }
    if end_time != 0 && end_time <= start_time {
        return Err(SolcityError::InvalidTimeRange);
    }

    Ok(RewardRule {
        merchant: merchant_key,
        rule_id,
        name,
        rule_type,
        multiplier,
        min_purchase,
        is_active: true,
        start_time,
        end_time,
    })
}

/// Why updating a rule with these inputs is rejected, or `None` when it is
/// accepted. The window check runs over the effective window: each side is
/// the given value, or the stored one where none is given.
pub open spec fn update_reward_rule_error(
    rule: RewardRule,
    name: Option<Seq<char>>,
    multiplier: Option<u64>,
    start_time: Option<i64>,
    end_time: Option<i64>,
) -> Option<SolcityError> {
    let effective_start = match start_time {
        Some(time) => time,
        None => rule.start_time,
    };
    let effective_end = match end_time {
        Some(time) => time,
        None => rule.end_time,
    };
    if name matches Some(text) && text.len() == 0 {
        Some(SolcityError::NameEmpty)
    } else if name matches Some(text) && text.len() > MAX_RULE_NAME_LEN {
        Some(SolcityError::NameTooLong)
    } else if multiplier matches Some(m) && m < 100 {
        Some(SolcityError::InvalidRewardAmount)
    } else if effective_end != 0 && effective_end <= effective_start {
        Some(SolcityError::InvalidTimeRange)
    } else {
        None
    }
}

/// Update an existing rule. A field left as `None` is kept as it is; every
/// given field is validated before any field is written, so a rejected
/// update leaves the rule unchanged, and an accepted one leaves its window
/// well-formed.
pub fn update_reward_rule(
    rule: &mut RewardRule,
    name: Option<String>,
    rule_type: Option<RuleType>,
    multiplier: Option<u64>,
    min_purchase: Option<u64>,
    start_time: Option<i64>,
    end_time: Option<i64>,
) -> (result: Result<(), SolcityError>)
    ensures
        result is Ok <==> update_reward_rule_error(
            *old(rule),
            match name {
                Some(ref text) => Some(text@),
                None => None,
            },
            multiplier,
            start_time,
            end_time,
        ) is None,
        result matches Err(e) ==> {
            &&& Some(e) == update_reward_rule_error(
                *old(rule),
                match name {
                    Some(ref text) => Some(text@),
                    None => None,
                },
                multiplier,
                start_time,
                end_time,
            )
            &&& *final(rule) == *old(rule)
        },
        result is Ok ==> {
            &&& final(rule).name@ == match name {
                Some(ref text) => text@,
                None => old(rule).name@,
            }
            &&& final(rule).rule_type == match rule_type {
                Some(kind) => kind,
                None => old(rule).rule_type,
            }
            &&& final(rule).multiplier == match multiplier {
                Some(m) => m,
                None => old(rule).multiplier,
            }
            &&& final(rule).min_purchase == match min_purchase {
                Some(m) => m,
                None => old(rule).min_purchase,
            }
            &&& final(rule).start_time == match start_time {
                Some(time) => time,
                None => old(rule).start_time,
            }
            &&& final(rule).end_time == match end_time {
                Some(time) => time,
                None => old(rule).end_time,
            }
            &&& final(rule).merchant == old(rule).merchant
            &&& final(rule).rule_id == old(rule).rule_id
            &&& final(rule).is_active == old(rule).is_active
            &&& final(rule).wf()
        },
{
    if let Some(ref text) = name {
        let len = text.as_str().unicode_len();
        if len == 0 {
            return Err(SolcityError::NameEmpty);
        }
        if len > MAX_RULE_NAME_LEN {
            return Err(SolcityError::NameTooLong);
        }
    }
    if let Some(m) = multiplier {
        if m < 100 {
            return Err(SolcityError::InvalidRewardAmount);
        }
    }
    let effective_start = match start_time {
        Some(time) => time,
        None => rule.start_time,
    };
    let effective_end = match end_time {
        Some(time) => time,
        None => rule.end_time,
    };
    if effective_end != 0 && effective_end <= effective_start {
        return Err(SolcityError::InvalidTimeRange);
    }

    if let Some(text) = name {
        rule.name = text;
    }
    if let Some(kind) = rule_type {
        rule.rule_type = kind;
    }
    if let Some(m) = multiplier {
        rule.multiplier = m;
    }
    if let Some(m) = min_purchase {
        rule.min_purchase = m;
    }
    if let Some(time) = start_time {
        rule.start_time = time;
    }
    if let Some(time) = end_time {
        rule.end_time = time;
    }
    Ok(())
}

/// Pause or unpause a rule. Toggling a rule off makes it inert for every
/// purchase without deleting it; nothing else about the rule changes.
pub fn toggle_reward_rule(rule: &mut RewardRule, is_active: bool)
    ensures
        *final(rule) == (RewardRule { is_active, ..*old(rule) }),
        !is_active ==> forall|purchase_amount: u64, now: i64|
            !rule_applies(*final(rule), purchase_amount, now),
{
    rule.is_active = is_active;
}

} // verus!
