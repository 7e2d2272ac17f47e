//! Customers and the tier classifier: a pure function from lifetime earned
//! points to one of four tiers, each carrying a reward multiplier in
//! hundredths.

use vstd::prelude::*;
use crate::constants::{
    SILVER_THRESHOLD, GOLD_THRESHOLD, PLATINUM_THRESHOLD, BRONZE_MULTIPLIER, SILVER_MULTIPLIER,
    GOLD_MULTIPLIER, PLATINUM_MULTIPLIER,
};
use crate::errors::SolcityError;
use crate::loyalty_program::LoyaltyProgram;

verus! {

#[derive(Clone, Copy, Debug, PartialEq, Eq, Structural)]
pub enum CustomerTier {
    /// Lifetime earned in `[0, 1_000)`.
    Bronze,
    /// Lifetime earned in `[1_000, 10_000)`.
    Silver,
    /// Lifetime earned in `[10_000, 50_000)`.
    Gold,
    /// Lifetime earned in `[50_000, ...)`.
    Platinum,
}

/// The tier a customer with `total_earned` lifetime points belongs to.
pub open spec fn tier_of(total_earned: u64) -> CustomerTier {
    if total_earned < SILVER_THRESHOLD {
        CustomerTier::Bronze
    } else if total_earned < GOLD_THRESHOLD {
        CustomerTier::Silver
    } else if total_earned < PLATINUM_THRESHOLD {
        CustomerTier::Gold
    } else {
        CustomerTier::Platinum
    }
}

/// The reward multiplier of a tier, in hundredths (100 = 1.0x).
pub open spec fn tier_multiplier_of(tier: CustomerTier) -> u64 {
    match tier {
        CustomerTier::Bronze => BRONZE_MULTIPLIER,
        CustomerTier::Silver => SILVER_MULTIPLIER,
        CustomerTier::Gold => GOLD_MULTIPLIER,
        CustomerTier::Platinum => PLATINUM_MULTIPLIER,
    }
}

/// The position of a tier in the Bronze-to-Platinum order.
pub open spec fn tier_rank(tier: CustomerTier) -> int {
    match tier {
        CustomerTier::Bronze => 0,
        CustomerTier::Silver => 1,
        CustomerTier::Gold => 2,
        CustomerTier::Platinum => 3,
    }
}

/// The classifier is monotonic: earning more points never lowers the tier.
/// Every input falls in exactly one of the four tiers, the one whose band
/// contains it.
pub proof fn lemma_tier_monotonic(a: u64, b: u64)
    requires
        a <= b,
    ensures
        tier_rank(tier_of(a)) <= tier_rank(tier_of(b)),
        0 <= tier_rank(tier_of(a)) <= 3,
{
}

impl CustomerTier {
    /// The tier's rank in the Bronze-to-Platinum order, as stored on
    /// transaction records.
    pub fn index(&self) -> (rank: u8)
        ensures
            rank == tier_rank(*self),
    {
        match self {
            CustomerTier::Bronze => 0,
            CustomerTier::Silver => 1,
            CustomerTier::Gold => 2,
            CustomerTier::Platinum => 3,
        }
    }
}

/// One customer of the shared program, identified by a wallet identity.
/// `tier` is a cache of `tier_of(total_earned)`, re-derived after every
/// mutation of `total_earned`.
#[derive(Clone, Debug)]
pub struct Customer {
    /// Customer wallet identity.
    pub wallet: u64,
    /// Identity of the loyalty program this customer belongs to.
    pub loyalty_program: u64,
    /// Lifetime tokens earned.
    pub total_earned: u64,
    /// Lifetime tokens redeemed.
    pub total_redeemed: u64,
    /// Current tier, derived from `total_earned`.
    pub tier: CustomerTier,
    /// Number of transactions (earn + redeem).
    pub transaction_count: u64,
    /// Consecutive days active.
    pub streak_days: u16,
    /// Last activity timestamp.
    pub last_activity: i64,
    /// Registration timestamp.
    pub joined_at: i64,
}

impl Customer {
    /// The cached tier agrees with the classifier.
    pub open spec fn wf(&self) -> bool {
        self.tier == tier_of(self.total_earned)
    }

    /// Calculate the tier for a lifetime-earned total.
    pub fn calculate_tier(total_earned: u64) -> (tier: CustomerTier)
        ensures
            tier == tier_of(total_earned),
    {
        if total_earned < SILVER_THRESHOLD {
            CustomerTier::Bronze
        } else if total_earned < GOLD_THRESHOLD {
            CustomerTier::Silver
        } else if total_earned < PLATINUM_THRESHOLD {
            CustomerTier::Gold
        } else {
            CustomerTier::Platinum
        }
    }

    /// The reward multiplier of this customer's current tier, in hundredths.
    pub fn get_tier_multiplier(&self) -> (multiplier: u64)
        ensures
            multiplier == tier_multiplier_of(self.tier),
    {
        match self.tier {
            CustomerTier::Bronze => BRONZE_MULTIPLIER,
            CustomerTier::Silver => SILVER_MULTIPLIER,
            CustomerTier::Gold => GOLD_MULTIPLIER,
            CustomerTier::Platinum => PLATINUM_MULTIPLIER,
        }
    }
}

/// Register a new customer in the program: a fresh record at Bronze tier with
/// zero totals, counted into the program's customer total. Rejected only when
/// that total cannot grow without overflowing.
pub fn register_customer(
    program: &mut LoyaltyProgram,
    program_key: u64,
    wallet: u64,
    now: i64,
) -> (result: Result<Customer, SolcityError>)
    ensures
        result is Ok <==> old(program).total_customers < u64::MAX,
        result matches Err(e) ==> e == SolcityError::Overflow && *final(program) == *old(
            program,
        ),
        result matches Ok(customer) ==> {
            &&& customer.wallet == wallet
            &&& customer.loyalty_program == program_key
            &&& customer.total_earned == 0
            &&& customer.total_redeemed == 0
            &&& customer.tier == CustomerTier::Bronze
            &&& customer.wf()
            &&& customer.transaction_count == 0
            &&& customer.streak_days == 0
            &&& customer.last_activity == now
            &&& customer.joined_at == now
            &&& *final(program) == LoyaltyProgram {
                total_customers: (old(program).total_customers + 1) as u64,
                ..*old(program)
            }
        },
{
    let total_customers = match program.total_customers.checked_add(1) {
        Some(total) => total,
        None => {
            return Err(SolcityError::Overflow);
        },
    };
    program.total_customers = total_customers;

    Ok(Customer {
        wallet,
        loyalty_program: program_key,
        total_earned: 0,
        total_redeemed: 0,
        tier: CustomerTier::Bronze,
        transaction_count: 0,
        streak_days: 0,
        last_activity: now,
        joined_at: now,
    })
}

} // verus!
