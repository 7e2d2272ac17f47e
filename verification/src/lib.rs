//! A multi-tenant loyalty-points ledger: a platform operator runs a shared
//! program in which merchants enroll, merchants issue points to customers for
//! purchases, and customers redeem accumulated points for merchant-defined
//! offers.
//!
//! This crate is the rewards issuance and redemption engine. Every operation
//! is a pure, verified transition over plain ledger records; the storage
//! substrate, the token mint/burn capability, the fee-transfer capability and
//! the clock are external collaborators that hand values in and carry results
//! out. Each transition either succeeds and updates every affected record, or
//! fails and leaves every record unchanged.

pub mod constants;
pub mod customer;
pub mod errors;
pub mod events;
pub mod issue_rewards;
pub mod loyalty_program;
pub mod merchant;
pub mod records;
pub mod redeem_rewards;
pub mod redemption_offer;
pub mod redemption_voucher;
pub mod reward_rule;
pub mod use_voucher;
