//! Merchants: enrollment (paying a one-time platform fee), profile updates,
//! and closing, with the invariant that a merchant with active reward rules
//! cannot be closed.

use vstd::prelude::*;
use vstd::string::StrSliceExecFns;
use crate::constants::{
    MAX_MERCHANT_NAME_LEN, MAX_AVATAR_URL_LEN, MAX_CATEGORY_LEN, MAX_DESCRIPTION_LEN,
    MERCHANT_REGISTRATION_FEE,
};
use crate::errors::SolcityError;
use crate::loyalty_program::LoyaltyProgram;

verus! {

/// One merchant enrolled in a loyalty program, owned by an authority
/// identity.
#[derive(Clone, Debug)]
pub struct Merchant {
    /// Merchant wallet identity.
    pub authority: u64,
    /// Identity of the loyalty program this merchant belongs to.
    pub loyalty_program: u64,
    /// Business name.
    pub name: String,
    /// Business description.
    pub description: String,
    /// Avatar URL.
    pub avatar_url: String,
    /// Business category.
    pub category: String,
    /// Tokens issued per major currency unit spent (e.g. 10 = 10 tokens/$).
    pub reward_rate: u64,
    /// Total tokens issued by this merchant.
    pub total_issued: u64,
    /// Total tokens redeemed at this merchant.
    pub total_redeemed: u64,
    /// Active status.
    pub is_active: bool,
    /// Registration timestamp.
    pub created_at: i64,
}

/// The description a merchant record stores for an optional input: the text
/// itself, or empty when none is given.
pub open spec fn resolved_description(description: Option<&String>) -> Seq<char> {
    match description {
        Some(text) => text@,
        None => Seq::<char>::empty(),
    }
}

/// Why registering a merchant with these inputs is rejected, or `None` when
/// it is accepted. Checks run in this order: the profile fields, the reward
/// rate, then room in the program's running totals for the new merchant and
/// the registration fee.
pub open spec fn register_merchant_error(
    program: LoyaltyProgram,
    name: Seq<char>,
    avatar_url: Seq<char>,
    category: Seq<char>,
    description: Option<Seq<char>>,
    reward_rate: u64,
) -> Option<SolcityError> {
    if name.len() == 0 {
        Some(SolcityError::NameEmpty)
    } else if name.len() > MAX_MERCHANT_NAME_LEN {
        Some(SolcityError::NameTooLong)
    } else if avatar_url.len() > MAX_AVATAR_URL_LEN {
        Some(SolcityError::NameTooLong)
    } else if category.len() == 0 {
        Some(SolcityError::NameEmpty)
    } else if category.len() > MAX_CATEGORY_LEN {
        Some(SolcityError::NameTooLong)
    } else if reward_rate == 0 {
        Some(SolcityError::InvalidRewardAmount)
    } else if description matches Some(text) && text.len() > MAX_DESCRIPTION_LEN {
        Some(SolcityError::NameTooLong)
    } else if program.total_merchants + 1 > u64::MAX {
        Some(SolcityError::Overflow)
    } else if program.total_fees_collected + MERCHANT_REGISTRATION_FEE > u64::MAX {
        Some(SolcityError::Overflow)
    } else {
        None
    }
}

/// Register a new merchant: validate the profile, count the merchant and the
/// one-time registration fee into the program totals, and return the fresh
/// active record with zero issuance totals. The fee itself moves through the
/// external payment capability; this transition accounts for it. On any
/// rejection the program record is left unchanged.
pub fn register_merchant(
    program: &mut LoyaltyProgram,
    program_key: u64,
    authority: u64,
    name: String,
    avatar_url: String,
    category: String,
    description: Option<String>,
    reward_rate: u64,
    now: i64,
) -> (result: Result<Merchant, SolcityError>)
    ensures
        result is Ok <==> register_merchant_error(
            *old(program),
            name@,
            avatar_url@,
            category@,
            match description {
                Some(text) => Some(text@),
                None => None,
            },
            reward_rate,
        ) is None,
        result matches Err(e) ==> {
            &&& Some(e) == register_merchant_error(
                *old(program),
                name@,
                avatar_url@,
                category@,
                match description {
                    Some(text) => Some(text@),
                    None => None,
                },
                reward_rate,
            )
            &&& *final(program) == *old(program)
        },
        result matches Ok(merchant) ==> {
            &&& merchant.authority == authority
            &&& merchant.loyalty_program == program_key
            &&& merchant.name@ == name@
            &&& merchant.description@ == match description {
                Some(text) => text@,
                None => Seq::<char>::empty(),
            }
            &&& merchant.avatar_url@ == avatar_url@
            &&& merchant.category@ == category@
            &&& merchant.reward_rate == reward_rate
            &&& merchant.total_issued == 0
            &&& merchant.total_redeemed == 0
            &&& merchant.is_active
            &&& merchant.created_at == now
            &&& *final(program) == LoyaltyProgram {
                total_merchants: (old(program).total_merchants + 1) as u64,
                total_fees_collected: (old(program).total_fees_collected
                    + MERCHANT_REGISTRATION_FEE) as u64,
                ..*old(program)
            }
        },
{
    let name_len = name.as_str().unicode_len();
    if name_len == 0 {
        return Err(SolcityError::NameEmpty);
    }
    if name_len > MAX_MERCHANT_NAME_LEN {
        return Err(SolcityError::NameTooLong);
    }
    if avatar_url.as_str().unicode_len() > MAX_AVATAR_URL_LEN {
        return Err(SolcityError::NameTooLong);
    }
    let category_len = category.as_str().unicode_len();
    if category_len == 0 {
        return Err(SolcityError::NameEmpty);
    }
    if category_len > MAX_CATEGORY_LEN {
        return Err(SolcityError::NameTooLong);
    }
    if reward_rate == 0 {
        return Err(SolcityError::InvalidRewardAmount);
    }
    let description = match description {
        Some(text) => {
            if text.as_str().unicode_len() > MAX_DESCRIPTION_LEN {
                return Err(SolcityError::NameTooLong);
            }
            text
        },
        None => String::new(),
    };

    let total_merchants = match program.total_merchants.checked_add(1) {
        Some(total) => total,
        None => {
            return Err(SolcityError::Overflow);
        },
    };
    let total_fees_collected = match program.total_fees_collected.checked_add(
        MERCHANT_REGISTRATION_FEE,
    ) {
        Some(total) => total,
        None => {
            return Err(SolcityError::Overflow);
        },
    };
    program.total_merchants = total_merchants;
    program.total_fees_collected = total_fees_collected;

    Ok(Merchant {
        authority,
        loyalty_program: program_key,
        name,
        description,
        avatar_url,
        category,
        reward_rate,
        total_issued: 0,
        total_redeemed: 0,
        is_active: true,
        created_at: now,
    })
}

/// Why updating a merchant profile with these inputs is rejected, or `None`
/// when it is accepted. A field left as `None` is kept as it is.
pub open spec fn update_merchant_error(
    new_reward_rate: Option<u64>,
    description: Option<Seq<char>>,
    avatar_url: Option<Seq<char>>,
    category: Option<Seq<char>>,
) -> Option<SolcityError> {
    if new_reward_rate matches Some(rate) && rate == 0 {
        Some(SolcityError::InvalidRewardAmount)
    } else if description matches Some(text) && text.len() > MAX_DESCRIPTION_LEN {
        Some(SolcityError::NameTooLong)
    } else if avatar_url matches Some(url) && url.len() > MAX_AVATAR_URL_LEN {
        Some(SolcityError::NameTooLong)
    } else if category matches Some(text) && text.len() == 0 {
        Some(SolcityError::NameEmpty)
    } else if category matches Some(text) && text.len() > MAX_CATEGORY_LEN {
        Some(SolcityError::NameTooLong)
    } else {
        None
    }
}

/// Update merchant settings. Every given field is validated before any field
/// is written, so a rejected update leaves the record unchanged.
pub fn update_merchant(
    merchant: &mut Merchant,
    new_reward_rate: Option<u64>,
    description: Option<String>,
    avatar_url: Option<String>,
    category: Option<String>,
    is_active: Option<bool>,
) -> (result: Result<(), SolcityError>)
    ensures
        result is Ok <==> update_merchant_error(
            new_reward_rate,
            match description {
                Some(ref text) => Some(text@),
                None => None,
            },
            match avatar_url {
                Some(ref url) => Some(url@),
                None => None,
            },
            match category {
                Some(ref text) => Some(text@),
                None => None,
            },
        ) is None,
        result matches Err(e) ==> {
            &&& Some(e) == update_merchant_error(
                new_reward_rate,
                match description {
                    Some(ref text) => Some(text@),
                    None => None,
                },
                match avatar_url {
                    Some(ref url) => Some(url@),
                    None => None,
                },
                match category {
                    Some(ref text) => Some(text@),
                    None => None,
                },
            )
            &&& *final(merchant) == *old(merchant)
        },
        result is Ok ==> {
            &&& final(merchant).reward_rate == match new_reward_rate {
                Some(rate) => rate,
                None => old(merchant).reward_rate,
            }
            &&& final(merchant).description@ == match description {
                Some(ref text) => text@,
                None => old(merchant).description@,
            }
            &&& final(merchant).avatar_url@ == match avatar_url {
                Some(ref url) => url@,
                None => old(merchant).avatar_url@,
            }
            &&& final(merchant).category@ == match category {
                Some(ref text) => text@,
                None => old(merchant).category@,
            }
            &&& final(merchant).is_active == match is_active {
                Some(active) => active,
                None => old(merchant).is_active,
            }
            &&& final(merchant).authority == old(merchant).authority
            &&& final(merchant).loyalty_program == old(merchant).loyalty_program
            &&& final(merchant).name@ == old(merchant).name@
            &&& final(merchant).total_issued == old(merchant).total_issued
            &&& final(merchant).total_redeemed == old(merchant).total_redeemed
            &&& final(merchant).created_at == old(merchant).created_at
        },
{
    if let Some(rate) = new_reward_rate {
        if rate == 0 {
            return Err(SolcityError::InvalidRewardAmount);
        }
    }
    if let Some(ref text) = description {
        if text.as_str().unicode_len() > MAX_DESCRIPTION_LEN {
            return Err(SolcityError::NameTooLong);
        }
    }
    if let Some(ref url) = avatar_url {
        if url.as_str().unicode_len() > MAX_AVATAR_URL_LEN {
            return Err(SolcityError::NameTooLong);
        }
    }
    if let Some(ref text) = category {
        let len = text.as_str().unicode_len();
        if len == 0 {
            return Err(SolcityError::NameEmpty);
        }
        if len > MAX_CATEGORY_LEN {
            return Err(SolcityError::NameTooLong);
        }
    }

    if let Some(rate) = new_reward_rate {
        merchant.reward_rate = rate;
    }
    if let Some(text) = description {
        merchant.description = text;
    }
    if let Some(url) = avatar_url {
        merchant.avatar_url = url;
    }
    if let Some(text) = category {
        merchant.category = text;
    }
    if let Some(active) = is_active {
        merchant.is_active = active;
    }
    Ok(())
}

/// Close a merchant account. A merchant that still owns one or more active
/// reward rules cannot be closed; otherwise the program's merchant total is
/// decremented (saturating at zero) and the record may be removed by the
/// storage substrate.
pub fn close_merchant(
    program: &mut LoyaltyProgram,
    merchant: &Merchant,
    active_rule_count: u64,
) -> (result: Result<(), SolcityError>)
    ensures
        result is Ok <==> active_rule_count == 0,
        result matches Err(e) ==> {
            &&& e == SolcityError::MerchantHasActiveRules
            &&& *final(program) == *old(program)
        },
        result is Ok ==> *final(program) == (LoyaltyProgram {
            total_merchants: if old(program).total_merchants > 0 {
                (old(program).total_merchants - 1) as u64
            } else {
                0
            },
            ..*old(program)
        }),
{
    if active_rule_count > 0 {
        return Err(SolcityError::MerchantHasActiveRules);
    }
    program.total_merchants = program.total_merchants.saturating_sub(1);
    Ok(())
}

} // verus!
