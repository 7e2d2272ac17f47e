use solcity_protocol::customer::{Customer, CustomerTier};
use solcity_protocol::errors::SolcityError;
use solcity_protocol::issue_rewards::issue_rewards;
use solcity_protocol::loyalty_program::initialize_program;
use solcity_protocol::loyalty_program::LoyaltyProgram;
use solcity_protocol::merchant::{register_merchant, Merchant};
use solcity_protocol::reward_rule::{set_reward_rule, toggle_reward_rule, RuleType};

const NOW: i64 = 1_700_000_000;

fn fresh_program() -> LoyaltyProgram {
    initialize_program(11, 22, 11, String::from("City Rewards"), None, NOW).unwrap()
}

fn fresh_merchant(program: &mut LoyaltyProgram, reward_rate: u64) -> Merchant {
    register_merchant(
        program,
        1,
        33,
        String::from("Corner Cafe"),
        String::from("https://example.invalid/cafe.png"),
        String::from("food"),
        None,
        reward_rate,
        NOW,
    )
    .unwrap()
}

fn customer_with(total_earned: u64) -> Customer {
    Customer {
        wallet: 7,
        loyalty_program: 1,
        total_earned,
        total_redeemed: 0,
        tier: Customer::calculate_tier(total_earned),
        transaction_count: 0,
        streak_days: 0,
        last_activity: 0,
        joined_at: 0,
    }
}

#[test]
fn bronze_small_purchase_truncates_to_one() {
    // Base rate 10 points/$, Bronze customer, $10.00 purchase:
    // 1000 * 10 / 100 / 100 = 1, tier multiplier 100 keeps it at 1.
    let mut program = fresh_program();
    let mut merchant = fresh_merchant(&mut program, 10);
    let mut customer = customer_with(0);

    let outcome =
        issue_rewards(&mut program, &mut merchant, 2, &mut customer, 3, None, 1000, NOW).unwrap();
    assert_eq!(outcome.event.base_reward, 1);
    assert_eq!(outcome.event.tier_multiplier, 100);
    assert_eq!(outcome.event.rule_multiplier, 100);
    assert!(!outcome.event.rule_applied);
    assert_eq!(outcome.event.final_reward, 1);
    assert_eq!(outcome.event.platform_fee, 100);
    assert_eq!(customer.total_earned, 1);
    assert_eq!(merchant.total_issued, 1);
    assert_eq!(program.total_tokens_issued, 1);
    assert!(outcome.tier_upgrade.is_none());
}

#[test]
fn platinum_purchase_doubles_reward() {
    // Same merchant, Platinum customer (multiplier 200), $100.00 purchase:
    // 10000 * 10 / 100 / 100 = 10, then 10 * 200 / 100 = 20.
    let mut program = fresh_program();
    let mut merchant = fresh_merchant(&mut program, 10);
    let mut customer = customer_with(50_000);

    let outcome =
        issue_rewards(&mut program, &mut merchant, 2, &mut customer, 3, None, 10_000, NOW).unwrap();
    assert_eq!(outcome.event.base_reward, 10);
    assert_eq!(outcome.event.tier_multiplier, 200);
    assert_eq!(outcome.event.final_reward, 20);
    assert_eq!(customer.total_earned, 50_020);
    assert_eq!(customer.tier, CustomerTier::Platinum);
}

#[test]
fn unbounded_rule_applies_while_active_and_is_inert_when_toggled_off() {
    // A rule with start 0, end 0, min purchase 0 and multiplier 150 applies
    // to any purchase while active; toggling it off makes it inert without
    // deleting it.
    let mut program = fresh_program();
    let mut merchant = fresh_merchant(&mut program, 10);
    let mut rule = set_reward_rule(
        2,
        1,
        String::from("Everything x1.5"),
        RuleType::BonusMultiplier,
        150,
        0,
        0,
        0,
    )
    .unwrap();

    let mut customer = customer_with(0);
    let outcome = issue_rewards(
        &mut program,
        &mut merchant,
        2,
        &mut customer,
        3,
        Some(&rule),
        10_000,
        NOW,
    )
    .unwrap();
    assert!(outcome.event.rule_applied);
    assert_eq!(outcome.event.rule_multiplier, 150);
    assert_eq!(outcome.event.rule_name.as_deref(), Some("Everything x1.5"));
    // 10000 * 10 / 100 / 100 = 10, tier 100 keeps 10, rule: 10 * 150 / 100 = 15.
    assert_eq!(outcome.event.final_reward, 15);

    toggle_reward_rule(&mut rule, false);
    assert!(!rule.is_active);
    let mut customer2 = customer_with(0);
    let outcome2 = issue_rewards(
        &mut program,
        &mut merchant,
        2,
        &mut customer2,
        3,
        Some(&rule),
        10_000,
        NOW,
    )
    .unwrap();
    assert!(!outcome2.event.rule_applied);
    assert_eq!(outcome2.event.final_reward, 10);
}

#[test]
fn rule_below_minimum_purchase_does_not_apply() {
    let mut program = fresh_program();
    let mut merchant = fresh_merchant(&mut program, 10);
    let rule = set_reward_rule(
        2,
        1,
        String::from("Big spender"),
        RuleType::BonusMultiplier,
        200,
        5_000,
        0,
        0,
    )
    .unwrap();

    let mut customer = customer_with(0);
    let outcome = issue_rewards(
        &mut program,
        &mut merchant,
        2,
        &mut customer,
        3,
        Some(&rule),
        1_000,
        NOW,
    )
    .unwrap();
    assert!(!outcome.event.rule_applied);
    assert_eq!(outcome.event.final_reward, 1);
}

#[test]
fn rule_outside_window_does_not_apply() {
    let mut program = fresh_program();
    let mut merchant = fresh_merchant(&mut program, 10);
    let rule = set_reward_rule(
        2,
        1,
        String::from("Next week only"),
        RuleType::BonusMultiplier,
        300,
        0,
        NOW + 1000,
        NOW + 2000,
    )
    .unwrap();
    assert!(!rule.is_currently_active(NOW));
    assert!(rule.is_currently_active(NOW + 1000));
    assert!(rule.is_currently_active(NOW + 2000));
    assert!(!rule.is_currently_active(NOW + 2001));

    let mut customer = customer_with(0);
    let outcome = issue_rewards(
        &mut program,
        &mut merchant,
        2,
        &mut customer,
        3,
        Some(&rule),
        10_000,
        NOW,
    )
    .unwrap();
    assert!(!outcome.event.rule_applied);
    assert_eq!(outcome.event.final_reward, 10);
}

#[test]
fn totals_never_decrease_across_issuances() {
    let mut program = fresh_program();
    let mut merchant = fresh_merchant(&mut program, 10);
    let mut customer = customer_with(0);

    let mut last_earned = customer.total_earned;
    let mut last_issued = merchant.total_issued;
    let mut last_program = program.total_tokens_issued;
    for purchase in [1000u64, 50, 10_000, 0, 250_000] {
        let _ = issue_rewards(
            &mut program,
            &mut merchant,
            2,
            &mut customer,
            3,
            None,
            purchase,
            NOW,
        );
        assert!(customer.total_earned >= last_earned);
        assert!(merchant.total_issued >= last_issued);
        assert!(program.total_tokens_issued >= last_program);
        last_earned = customer.total_earned;
        last_issued = merchant.total_issued;
        last_program = program.total_tokens_issued;
    }
}

#[test]
fn tier_upgrade_is_reported() {
    let mut program = fresh_program();
    let mut merchant = fresh_merchant(&mut program, 10);
    // 999 earned: one more point crosses into Silver.
    let mut customer = customer_with(999);

    let outcome =
        issue_rewards(&mut program, &mut merchant, 2, &mut customer, 3, None, 1000, NOW).unwrap();
    assert_eq!(outcome.event.final_reward, 1);
    assert_eq!(customer.total_earned, 1000);
    assert_eq!(customer.tier, CustomerTier::Silver);
    let upgrade = outcome.tier_upgrade.unwrap();
    assert_eq!(upgrade.old_tier, CustomerTier::Bronze);
    assert_eq!(upgrade.new_tier, CustomerTier::Silver);
    assert_eq!(upgrade.total_earned, 1000);
}

#[test]
fn zero_purchase_is_rejected() {
    let mut program = fresh_program();
    let mut merchant = fresh_merchant(&mut program, 10);
    let mut customer = customer_with(0);
    let result = issue_rewards(&mut program, &mut merchant, 2, &mut customer, 3, None, 0, NOW);
    assert_eq!(result.unwrap_err(), SolcityError::InvalidRewardAmount);
    assert_eq!(customer.total_earned, 0);
}

#[test]
fn inactive_merchant_is_rejected() {
    let mut program = fresh_program();
    let mut merchant = fresh_merchant(&mut program, 10);
    merchant.is_active = false;
    let mut customer = customer_with(0);
    let result = issue_rewards(&mut program, &mut merchant, 2, &mut customer, 3, None, 1000, NOW);
    assert_eq!(result.unwrap_err(), SolcityError::MerchantNotActive);
}

#[test]
fn purchase_below_one_token_is_rejected_not_issued_as_zero() {
    // 50 cents at 10 points/$ floors to zero and is rejected.
    let mut program = fresh_program();
    let mut merchant = fresh_merchant(&mut program, 10);
    let mut customer = customer_with(0);
    let result = issue_rewards(&mut program, &mut merchant, 2, &mut customer, 3, None, 50, NOW);
    assert_eq!(result.unwrap_err(), SolcityError::InvalidRewardAmount);
    assert_eq!(customer.total_earned, 0);
    assert_eq!(merchant.total_issued, 0);
    assert_eq!(program.total_tokens_issued, 0);
}

#[test]
fn multiplication_overflow_is_rejected() {
    let mut program = fresh_program();
    let mut merchant = fresh_merchant(&mut program, 100);
    let mut customer = customer_with(0);
    let before_fees = program.total_fees_collected;
    let result = issue_rewards(
        &mut program,
        &mut merchant,
        2,
        &mut customer,
        3,
        None,
        u64::MAX,
        NOW,
    );
    assert_eq!(result.unwrap_err(), SolcityError::Overflow);
    assert_eq!(program.total_fees_collected, before_fees);
    assert_eq!(customer.total_earned, 0);
}
