//! Fixed parameters of the loyalty engine: tier thresholds and multipliers,
//! platform fees, and the divisors used by the reward arithmetic.

use vstd::prelude::*;

verus! {

/// Lifetime-earned thresholds (in tokens) at which each tier begins.
pub const BRONZE_THRESHOLD: u64 = 0;
pub const SILVER_THRESHOLD: u64 = 1_000;
pub const GOLD_THRESHOLD: u64 = 10_000;
pub const PLATINUM_THRESHOLD: u64 = 50_000;

/// Tier multipliers in hundredths (100 = 1.0x).
pub const BRONZE_MULTIPLIER: u64 = 100;
pub const SILVER_MULTIPLIER: u64 = 125;
pub const GOLD_MULTIPLIER: u64 = 150;
pub const PLATINUM_MULTIPLIER: u64 = 200;

/// Default interest rate in basis points (500 = 5% APY). A configured rate is
/// carried on the program record; no accrual is computed by this engine.
pub const DEFAULT_INTEREST_RATE: i16 = 500;

/// Divisor for multipliers expressed in hundredths.
pub const PERCENTAGE_DIVISOR: u64 = 100;

/// One-time platform fee a merchant pays on registration, in currency units.
pub const MERCHANT_REGISTRATION_FEE: u64 = 10_000_000;

/// Platform fee per issued token, in currency units.
pub const ISSUANCE_FEE_PER_TOKEN: u64 = 100;

/// How long a redemption voucher stays valid after creation, in seconds.
pub const VOUCHER_VALIDITY_SECONDS: i64 = 2_592_000;

/// Maximum lengths of the textual fields, in characters.
pub const MAX_PROGRAM_NAME_LEN: usize = 32;
pub const MAX_MERCHANT_NAME_LEN: usize = 32;
pub const MAX_CATEGORY_LEN: usize = 32;
pub const MAX_DESCRIPTION_LEN: usize = 256;
pub const MAX_AVATAR_URL_LEN: usize = 128;
pub const MAX_RULE_NAME_LEN: usize = 32;
pub const MAX_OFFER_NAME_LEN: usize = 64;
pub const MAX_ICON_LEN: usize = 32;

} // verus!
