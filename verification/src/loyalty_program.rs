//! The tenant root record of the shared loyalty program, and its creation.

use vstd::prelude::*;
use vstd::string::StrSliceExecFns;
use crate::constants::{DEFAULT_INTEREST_RATE, MAX_PROGRAM_NAME_LEN};
use crate::errors::SolcityError;

verus! {

/// The tenant root: one record per loyalty program, created once by the
/// platform admin and mutated by every issuance and redemption.
#[derive(Clone, Debug)]
pub struct LoyaltyProgram {
    /// Program authority (admin) identity.
    pub authority: u64,
    /// Identity of the point mint.
    pub mint: u64,
    /// Identity of the platform treasury that collects fees.
    pub treasury: u64,
    /// Program name.
    pub name: String,
    /// Total registered merchants.
    pub total_merchants: u64,
    /// Total registered customers.
    pub total_customers: u64,
    /// Total tokens ever minted.
    pub total_tokens_issued: u64,
    /// Total tokens ever burned.
    pub total_tokens_redeemed: u64,
    /// Total platform fees ever collected, in currency units.
    pub total_fees_collected: u64,
    /// Interest rate in basis points (500 = 5%).
    pub interest_rate: i16,
    /// Creation timestamp.
    pub created_at: i64,
}

/// The interest rate a new program is created with: the requested rate, or
/// the default when none is requested.
pub open spec fn resolved_interest_rate(interest_rate: Option<i16>) -> i16 {
    match interest_rate {
        Some(rate) => rate,
        None => DEFAULT_INTEREST_RATE,
    }
}

/// Why creating a program with these inputs is rejected, or `None` when it
/// is accepted.
pub open spec fn initialize_program_error(name: Seq<char>, rate: i16) -> Option<SolcityError> {
    if name.len() == 0 {
        Some(SolcityError::NameEmpty)
    } else if name.len() > MAX_PROGRAM_NAME_LEN {
        Some(SolcityError::NameTooLong)
    } else if !(0 <= rate <= 10000) {
        Some(SolcityError::InvalidInterestRate)
    } else {
        None
    }
}

/// Create the tenant root record. The admin supplies their identity, the
/// identity of the freshly created point mint, and the treasury identity;
/// every running total starts at zero.
pub fn initialize_program(
    authority: u64,
    mint: u64,
    treasury: u64,
    name: String,
    interest_rate: Option<i16>,
    now: i64,
) -> (result: Result<LoyaltyProgram, SolcityError>)
    ensures
        result is Ok <==> initialize_program_error(
            name@,
            resolved_interest_rate(interest_rate),
        ) is None,
        result matches Err(e) ==> Some(e) == initialize_program_error(
            name@,
            resolved_interest_rate(interest_rate),
        ),
        result matches Ok(program) ==> {
            &&& program.authority == authority
            &&& program.mint == mint
            &&& program.treasury == treasury
            &&& program.name@ == name@
            &&& program.total_merchants == 0
            &&& program.total_customers == 0
            &&& program.total_tokens_issued == 0
            &&& program.total_tokens_redeemed == 0
            &&& program.total_fees_collected == 0
            &&& program.interest_rate == resolved_interest_rate(interest_rate)
            &&& program.created_at == now
        },
{
    let name_len = name.as_str().unicode_len();
    if name_len == 0 {
        return Err(SolcityError::NameEmpty);
    }
    if name_len > MAX_PROGRAM_NAME_LEN {
        return Err(SolcityError::NameTooLong);
    }

    let rate: i16 = match interest_rate {
        Some(rate) => rate,
        None => DEFAULT_INTEREST_RATE,
    };
    if !(0 <= rate && rate <= 10000) {
        return Err(SolcityError::InvalidInterestRate);
    }

    Ok(LoyaltyProgram {
        authority,
        mint,
        treasury,
        name,
        total_merchants: 0,
        total_customers: 0,
        total_tokens_issued: 0,
        total_tokens_redeemed: 0,
        total_fees_collected: 0,
        interest_rate: rate,
        created_at: now,
    })
}

} // verus!
