use solcity_protocol::customer::{register_customer, CustomerTier};
use solcity_protocol::errors::SolcityError;
use solcity_protocol::loyalty_program::{initialize_program, LoyaltyProgram};
use solcity_protocol::merchant::{close_merchant, register_merchant, update_merchant, Merchant};
use solcity_protocol::redemption_offer::{
    create_redemption_offer, toggle_redemption_offer, update_redemption_offer, RedemptionType,
};
use solcity_protocol::reward_rule::{set_reward_rule, update_reward_rule, RuleType};

const NOW: i64 = 1_700_000_000;

fn fresh_program() -> LoyaltyProgram {
    initialize_program(11, 22, 11, String::from("City Rewards"), None, NOW).unwrap()
}

fn fresh_merchant(program: &mut LoyaltyProgram) -> Merchant {
    register_merchant(
        program,
        1,
        33,
        String::from("Corner Cafe"),
        String::from("https://example.invalid/cafe.png"),
        String::from("food"),
        None,
        10,
        NOW,
    )
    .unwrap()
}

#[test]
fn initialize_program_defaults_and_limits() {
    let program = fresh_program();
    assert_eq!(program.authority, 11);
    assert_eq!(program.mint, 22);
    assert_eq!(program.treasury, 11);
    assert_eq!(program.name, "City Rewards");
    assert_eq!(program.interest_rate, 500);
    assert_eq!(program.total_merchants, 0);
    assert_eq!(program.total_tokens_issued, 0);

    let explicit =
        initialize_program(11, 22, 11, String::from("P"), Some(250), NOW).unwrap();
    assert_eq!(explicit.interest_rate, 250);

    let empty = initialize_program(11, 22, 11, String::new(), None, NOW);
    assert_eq!(empty.unwrap_err(), SolcityError::NameEmpty);

    let long = initialize_program(11, 22, 11, "x".repeat(33), None, NOW);
    assert_eq!(long.unwrap_err(), SolcityError::NameTooLong);

    let negative = initialize_program(11, 22, 11, String::from("P"), Some(-1), NOW);
    assert_eq!(negative.unwrap_err(), SolcityError::InvalidInterestRate);

    let too_high = initialize_program(11, 22, 11, String::from("P"), Some(10_001), NOW);
    assert_eq!(too_high.unwrap_err(), SolcityError::InvalidInterestRate);
}

#[test]
fn register_customer_starts_at_bronze_with_zero_totals() {
    let mut program = fresh_program();
    let customer = register_customer(&mut program, 0, 77, NOW).unwrap();
    assert_eq!(program.total_customers, 1);
    assert_eq!(customer.wallet, 77);
    assert_eq!(customer.total_earned, 0);
    assert_eq!(customer.total_redeemed, 0);
    assert_eq!(customer.tier, CustomerTier::Bronze);
    assert_eq!(customer.transaction_count, 0);
    assert_eq!(customer.joined_at, NOW);
}

#[test]
fn register_merchant_counts_fee_and_merchant() {
    let mut program = fresh_program();
    let merchant = fresh_merchant(&mut program);
    assert_eq!(program.total_merchants, 1);
    assert_eq!(program.total_fees_collected, 10_000_000);
    assert!(merchant.is_active);
    assert_eq!(merchant.reward_rate, 10);
    assert_eq!(merchant.description, "");
    assert_eq!(merchant.total_issued, 0);
}

#[test]
fn register_merchant_validation() {
    let mut program = fresh_program();
    let rejected = register_merchant(
        &mut program,
        1,
        33,
        String::new(),
        String::new(),
        String::from("food"),
        None,
        10,
        NOW,
    );
    assert_eq!(rejected.unwrap_err(), SolcityError::NameEmpty);
    assert_eq!(program.total_merchants, 0);

    let zero_rate = register_merchant(
        &mut program,
        1,
        33,
        String::from("Cafe"),
        String::new(),
        String::from("food"),
        None,
        0,
        NOW,
    );
    assert_eq!(zero_rate.unwrap_err(), SolcityError::InvalidRewardAmount);

    let no_category = register_merchant(
        &mut program,
        1,
        33,
        String::from("Cafe"),
        String::new(),
        String::new(),
        None,
        10,
        NOW,
    );
    assert_eq!(no_category.unwrap_err(), SolcityError::NameEmpty);

    let long_description = register_merchant(
        &mut program,
        1,
        33,
        String::from("Cafe"),
        String::new(),
        String::from("food"),
        Some("d".repeat(257)),
        10,
        NOW,
    );
    assert_eq!(long_description.unwrap_err(), SolcityError::NameTooLong);
}

#[test]
fn update_merchant_changes_only_what_is_given() {
    let mut program = fresh_program();
    let mut merchant = fresh_merchant(&mut program);
    update_merchant(
        &mut merchant,
        Some(25),
        Some(String::from("New text")),
        None,
        None,
        Some(false),
    )
    .unwrap();
    assert_eq!(merchant.reward_rate, 25);
    assert_eq!(merchant.description, "New text");
    assert_eq!(merchant.category, "food");
    assert!(!merchant.is_active);

    let rejected = update_merchant(&mut merchant, Some(0), None, None, None, Some(true));
    assert_eq!(rejected.unwrap_err(), SolcityError::InvalidRewardAmount);
    // The rejected update changed nothing, the active flag included.
    assert!(!merchant.is_active);
    assert_eq!(merchant.reward_rate, 25);
}

#[test]
fn merchant_with_active_rules_cannot_be_closed() {
    let mut program = fresh_program();
    let merchant = fresh_merchant(&mut program);
    assert_eq!(program.total_merchants, 1);

    let blocked = close_merchant(&mut program, &merchant, 2);
    assert_eq!(blocked.unwrap_err(), SolcityError::MerchantHasActiveRules);
    assert_eq!(program.total_merchants, 1);

    close_merchant(&mut program, &merchant, 0).unwrap();
    assert_eq!(program.total_merchants, 0);

    // Closing with an already-zero merchant total saturates at zero.
    close_merchant(&mut program, &merchant, 0).unwrap();
    assert_eq!(program.total_merchants, 0);
}

#[test]
fn set_reward_rule_validation() {
    let rule = set_reward_rule(
        2,
        1,
        String::from("Happy hour"),
        RuleType::BonusMultiplier,
        150,
        1_000,
        NOW,
        NOW + 3_600,
    )
    .unwrap();
    assert!(rule.is_active);
    assert_eq!(rule.multiplier, 150);
    assert_eq!(rule.min_purchase, 1_000);

    let empty = set_reward_rule(2, 1, String::new(), RuleType::BaseReward, 150, 0, 0, 0);
    assert_eq!(empty.unwrap_err(), SolcityError::NameEmpty);

    let long = set_reward_rule(2, 1, "r".repeat(33), RuleType::BaseReward, 150, 0, 0, 0);
    assert_eq!(long.unwrap_err(), SolcityError::NameTooLong);

    let weak = set_reward_rule(2, 1, String::from("Weak"), RuleType::BaseReward, 99, 0, 0, 0);
    assert_eq!(weak.unwrap_err(), SolcityError::InvalidRewardAmount);

    let backwards = set_reward_rule(
        2,
        1,
        String::from("Backwards"),
        RuleType::BaseReward,
        150,
        0,
        NOW,
        NOW - 1,
    );
    assert_eq!(backwards.unwrap_err(), SolcityError::InvalidTimeRange);
}

#[test]
fn update_reward_rule_keeps_the_window_well_formed() {
    let mut rule = set_reward_rule(
        2,
        1,
        String::from("Happy hour"),
        RuleType::BonusMultiplier,
        150,
        1_000,
        NOW,
        NOW + 3_600,
    )
    .unwrap();

    update_reward_rule(&mut rule, None, None, Some(200), Some(500), None, None).unwrap();
    assert_eq!(rule.multiplier, 200);
    assert_eq!(rule.min_purchase, 500);
    assert_eq!(rule.name, "Happy hour");

    // Moving the start past the end would leave a window that ends before
    // it starts; the update is rejected whole.
    let bad = update_reward_rule(
        &mut rule,
        Some(String::from("Renamed")),
        None,
        None,
        None,
        Some(NOW + 7_200),
        None,
    );
    assert_eq!(bad.unwrap_err(), SolcityError::InvalidTimeRange);
    assert_eq!(rule.name, "Happy hour");
    assert_eq!(rule.start_time, NOW);

    // Clearing the end to unbounded is always permitted.
    update_reward_rule(&mut rule, None, None, None, None, Some(NOW + 7_200), Some(0)).unwrap();
    assert_eq!(rule.start_time, NOW + 7_200);
    assert_eq!(rule.end_time, 0);
}

#[test]
fn create_redemption_offer_validation() {
    let mut program = fresh_program();
    let mut merchant = fresh_merchant(&mut program);

    let offer = create_redemption_offer(
        &merchant,
        2,
        1,
        String::from("Free espresso"),
        String::from("One shot"),
        String::from("cup"),
        500,
        RedemptionType::Discount { percentage: 10 },
        Some(5),
        Some(NOW + 1_000),
        NOW,
    )
    .unwrap();
    assert!(offer.is_active);
    assert_eq!(offer.quantity_claimed, 0);
    assert_eq!(offer.quantity_limit, Some(5));

    let free = create_redemption_offer(
        &merchant,
        2,
        1,
        String::from("Free everything"),
        String::new(),
        String::new(),
        0,
        RedemptionType::Discount { percentage: 10 },
        None,
        None,
        NOW,
    );
    assert_eq!(free.unwrap_err(), SolcityError::InvalidRewardAmount);

    let nameless = create_redemption_offer(
        &merchant,
        2,
        1,
        String::new(),
        String::new(),
        String::new(),
        500,
        RedemptionType::Discount { percentage: 10 },
        None,
        None,
        NOW,
    );
    assert_eq!(nameless.unwrap_err(), SolcityError::NameEmpty);

    merchant.is_active = false;
    let inactive = create_redemption_offer(
        &merchant,
        2,
        1,
        String::from("Free espresso"),
        String::new(),
        String::new(),
        500,
        RedemptionType::Discount { percentage: 10 },
        None,
        None,
        NOW,
    );
    assert_eq!(inactive.unwrap_err(), SolcityError::MerchantNotActive);
}

#[test]
fn update_redemption_offer_cannot_set_a_limit_below_claimed() {
    let mut program = fresh_program();
    let merchant = fresh_merchant(&mut program);
    let mut offer = create_redemption_offer(
        &merchant,
        2,
        1,
        String::from("Free espresso"),
        String::from("One shot"),
        String::from("cup"),
        500,
        RedemptionType::Discount { percentage: 10 },
        Some(5),
        None,
        NOW,
    )
    .unwrap();
    offer.quantity_claimed = 3;

    let too_low = update_redemption_offer(&mut offer, None, None, None, None, Some(Some(2)), None);
    assert_eq!(too_low.unwrap_err(), SolcityError::InvalidRewardAmount);
    assert_eq!(offer.quantity_limit, Some(5));

    update_redemption_offer(
        &mut offer,
        Some(String::from("Two shots")),
        None,
        Some(600),
        None,
        Some(Some(3)),
        Some(None),
    )
    .unwrap();
    assert_eq!(offer.description, "Two shots");
    assert_eq!(offer.cost, 600);
    assert_eq!(offer.quantity_limit, Some(3));
    assert_eq!(offer.expiration, None);
}

#[test]
fn toggle_redemption_offer_flips_only_the_flag() {
    let mut program = fresh_program();
    let merchant = fresh_merchant(&mut program);
    let mut offer = create_redemption_offer(
        &merchant,
        2,
        1,
        String::from("Free espresso"),
        String::new(),
        String::new(),
        500,
        RedemptionType::Discount { percentage: 10 },
        None,
        None,
        NOW,
    )
    .unwrap();

    toggle_redemption_offer(&mut offer);
    assert!(!offer.is_active);
    assert!(!offer.is_available(NOW));
    toggle_redemption_offer(&mut offer);
    assert!(offer.is_active);
    assert!(offer.is_available(NOW));
    assert_eq!(offer.cost, 500);
}
