//! Merchant-defined redemption offers: goods priced in points, with optional
//! scarcity (a quantity limit) and optional expiration, and their
//! create/update/toggle lifecycle.

use vstd::prelude::*;
use vstd::string::StrSliceExecFns;
use crate::constants::{MAX_OFFER_NAME_LEN, MAX_DESCRIPTION_LEN, MAX_ICON_LEN};
use crate::errors::SolcityError;
use crate::merchant::Merchant;

verus! {

/// The kind of benefit an offer grants, with its kind-specific payload.
#[derive(Debug, PartialEq, Eq)]
pub enum RedemptionType {
    Discount { percentage: u8 },
    FreeProduct { product_id: String },
    Cashback { amount_lamports: u64 },
    ExclusiveAccess { access_type: String },
    Custom { custom_name: String },
}

impl Clone for RedemptionType {
    /// A clone carries the same kind and payload.
    fn clone(&self) -> (result: Self)
        ensures
            result == *self,
    {
        match self {
            RedemptionType::Discount { percentage } => RedemptionType::Discount {
                percentage: *percentage,
            },
            RedemptionType::FreeProduct { product_id } => RedemptionType::FreeProduct {
                product_id: product_id.clone(),
            },
            RedemptionType::Cashback { amount_lamports } => RedemptionType::Cashback {
                amount_lamports: *amount_lamports,
            },
            RedemptionType::ExclusiveAccess { access_type } => RedemptionType::ExclusiveAccess {
                access_type: access_type.clone(),
            },
            RedemptionType::Custom { custom_name } => RedemptionType::Custom {
                custom_name: custom_name.clone(),
            },
        }
    }
}

/// One redeemable offer owned by a merchant.
#[derive(Clone, Debug)]
pub struct RedemptionOffer {
    /// Identity of the merchant this offer belongs to.
    pub merchant: u64,
    /// Identity of the loyalty program.
    pub loyalty_program: u64,
    /// Offer name, unique per merchant.
    pub name: String,
    /// Offer description.
    pub description: String,
    /// Icon identifier.
    pub icon: String,
    /// Point cost of one redemption.
    pub cost: u64,
    /// The kind of benefit granted.
    pub offer_type: RedemptionType,
    /// How many redemptions are allowed in total, or `None` for no limit.
    pub quantity_limit: Option<u64>,
    /// How many redemptions have been claimed so far.
    pub quantity_claimed: u64,
    /// When the offer expires, or `None` for no expiration.
    pub expiration: Option<i64>,
    /// Active status.
    pub is_active: bool,
    /// Creation timestamp.
    pub created_at: i64,
}

/// Whether an offer can be redeemed at `now`: it is switched on, it has not
/// expired, and its quantity limit (if any) is not exhausted.
pub open spec fn available(offer: RedemptionOffer, now: i64) -> bool {
    &&& offer.is_active
    &&& (offer.expiration matches Some(expiration) ==> now <= expiration)
    &&& (offer.quantity_limit matches Some(limit) ==> offer.quantity_claimed < limit)
}

impl RedemptionOffer {
    /// When a quantity limit is set, no more than that many redemptions have
    /// been claimed.
    pub open spec fn wf(&self) -> bool {
        self.quantity_limit matches Some(limit) ==> self.quantity_claimed <= limit
    }

    /// Check whether the offer can be redeemed at `current_time`.
    pub fn is_available(&self, current_time: i64) -> (is_available: bool)
        ensures
            is_available == available(*self, current_time),
    {
        if !self.is_active {
            return false;
        }
        if let Some(expiration) = self.expiration {
            if current_time > expiration {
                return false;
            }
        }
        if let Some(limit) = self.quantity_limit {
            if self.quantity_claimed >= limit {
                return false;
            }
        }
        true
    }
}

/// Why creating an offer with these inputs is rejected, or `None` when it is
/// accepted.
pub open spec fn create_redemption_offer_error(
    merchant: Merchant,
    name: Seq<char>,
    description: Seq<char>,
    icon: Seq<char>,
    cost: u64,
) -> Option<SolcityError> {
    if !merchant.is_active {
        Some(SolcityError::MerchantNotActive)
    } else if name.len() == 0 {
        Some(SolcityError::NameEmpty)
    } else if name.len() > MAX_OFFER_NAME_LEN {
        Some(SolcityError::NameTooLong)
    } else if description.len() > MAX_DESCRIPTION_LEN {
        Some(SolcityError::NameTooLong)
    } else if icon.len() > MAX_ICON_LEN {
        Some(SolcityError::NameTooLong)
    } else if cost == 0 {
        Some(SolcityError::InvalidRewardAmount)
    } else {
        None
    }
}

/// Create a redemption offer for an active merchant. A fresh offer starts
/// out active with nothing claimed.
pub fn create_redemption_offer(
    merchant: &Merchant,
    merchant_key: u64,
    program_key: u64,
    name: String,
    description: String,
    icon: String,
    cost: u64,
    offer_type: RedemptionType,
    quantity_limit: Option<u64>,
    expiration: Option<i64>,
    now: i64,
) -> (result: Result<RedemptionOffer, SolcityError>)
    ensures
        result is Ok <==> create_redemption_offer_error(
            *merchant,
            name@,
            description@,
            icon@,
            cost,
        ) is None,
        result matches Err(e) ==> Some(e) == create_redemption_offer_error(
            *merchant,
            name@,
            description@,
            icon@,
            cost,
        ),
        result matches Ok(offer) ==> {
            &&& offer.merchant == merchant_key
            &&& offer.loyalty_program == program_key
            &&& offer.name@ == name@
            &&& offer.description@ == description@
            &&& offer.icon@ == icon@
            &&& offer.cost == cost
            &&& offer.offer_type == offer_type
            &&& offer.quantity_limit == quantity_limit
            &&& offer.quantity_claimed == 0
            &&& offer.expiration == expiration
            &&& offer.is_active
            &&& offer.created_at == now
            &&& offer.wf()
        },
{
    if !merchant.is_active {
        return Err(SolcityError::MerchantNotActive);
    }
    let name_len = name.as_str().unicode_len();
    if name_len == 0 {
        return Err(SolcityError::NameEmpty);
    }
    if name_len > MAX_OFFER_NAME_LEN {
        return Err(SolcityError::NameTooLong);
    }
    if description.as_str().unicode_len() > MAX_DESCRIPTION_LEN {
        return Err(SolcityError::NameTooLong);
    }
    if icon.as_str().unicode_len() > MAX_ICON_LEN {
        return Err(SolcityError::NameTooLong);
    }
    if cost == 0 {
        return Err(SolcityError::InvalidRewardAmount);
    }

    Ok(RedemptionOffer {
        merchant: merchant_key,
        loyalty_program: program_key,
        name,
        description,
        icon,
        cost,
        offer_type,
        quantity_limit,
        quantity_claimed: 0,
        expiration,
        is_active: true,
        created_at: now,
    })
}

/// Why updating an offer with these inputs is rejected, or `None` when it is
/// accepted. A new quantity limit below what is already claimed is rejected,
/// so an accepted update keeps the offer well-formed.
pub open spec fn update_redemption_offer_error(
    offer: RedemptionOffer,
    description: Option<Seq<char>>,
    icon: Option<Seq<char>>,
    cost: Option<u64>,
    quantity_limit: Option<Option<u64>>,
) -> Option<SolcityError> {
    if description matches Some(text) && text.len() > MAX_DESCRIPTION_LEN {
        Some(SolcityError::NameTooLong)
    } else if icon matches Some(text) && text.len() > MAX_ICON_LEN {
        Some(SolcityError::NameTooLong)
    } else if cost matches Some(c) && c == 0 {
        Some(SolcityError::InvalidRewardAmount)
    } else if quantity_limit matches Some(Some(limit)) && limit < offer.quantity_claimed {
        Some(SolcityError::InvalidRewardAmount)
    } else {
        None
    }
}

/// Update an existing offer. A field left as `None` is kept as it is; every
/// given field is validated before any field is written, so a rejected
/// update leaves the offer unchanged, and an accepted one leaves it
/// well-formed.
pub fn update_redemption_offer(
    offer: &mut RedemptionOffer,
    description: Option<String>,
    icon: Option<String>,
    cost: Option<u64>,
    offer_type: Option<RedemptionType>,
    quantity_limit: Option<Option<u64>>,
    expiration: Option<Option<i64>>,
) -> (result: Result<(), SolcityError>)
    requires
        old(offer).wf(),
    ensures
        result is Ok <==> update_redemption_offer_error(
            *old(offer),
            match description {
                Some(ref text) => Some(text@),
                None => None,
            },
            match icon {
                Some(ref text) => Some(text@),
                None => None,
            },
            cost,
            quantity_limit,
        ) is None,
        result matches Err(e) ==> {
            &&& Some(e) == update_redemption_offer_error(
                *old(offer),
                match description {
                    Some(ref text) => Some(text@),
                    None => None,
                },
                match icon {
                    Some(ref text) => Some(text@),
                    None => None,
                },
                cost,
                quantity_limit,
            )
            &&& *final(offer) == *old(offer)
        },
        result is Ok ==> {
            &&& final(offer).description@ == match description {
                Some(ref text) => text@,
                None => old(offer).description@,
            }
            &&& final(offer).icon@ == match icon {
                Some(ref text) => text@,
                None => old(offer).icon@,
            }
            &&& final(offer).cost == match cost {
                Some(c) => c,
                None => old(offer).cost,
            }
            &&& final(offer).offer_type == match offer_type {
                Some(ref kind) => *kind,
                None => old(offer).offer_type,
            }
            &&& final(offer).quantity_limit == match quantity_limit {
                Some(limit) => limit,
                None => old(offer).quantity_limit,
            }
            &&& final(offer).expiration == match expiration {
                Some(expiration) => expiration,
                None => old(offer).expiration,
            }
            &&& final(offer).merchant == old(offer).merchant
            &&& final(offer).loyalty_program == old(offer).loyalty_program
            &&& final(offer).name@ == old(offer).name@
            &&& final(offer).quantity_claimed == old(offer).quantity_claimed
            &&& final(offer).is_active == old(offer).is_active
            &&& final(offer).created_at == old(offer).created_at
            &&& final(offer).wf()
        },
{
    if let Some(ref text) = description {
        if text.as_str().unicode_len() > MAX_DESCRIPTION_LEN {
            return Err(SolcityError::NameTooLong);
        }
    }
    if let Some(ref text) = icon {
        if text.as_str().unicode_len() > MAX_ICON_LEN {
            return Err(SolcityError::NameTooLong);
        }
    }
    if let Some(c) = cost {
        if c == 0 {
            return Err(SolcityError::InvalidRewardAmount);
        }
    }
    if let Some(Some(limit)) = quantity_limit {
        if limit < offer.quantity_claimed {
            return Err(SolcityError::InvalidRewardAmount);
        }
    }

    if let Some(text) = description {
        offer.description = text;
    }
    if let Some(text) = icon {
        offer.icon = text;
    }
    if let Some(c) = cost {
        offer.cost = c;
    }
    if let Some(kind) = offer_type {
        offer.offer_type = kind;
    }
    if let Some(limit) = quantity_limit {
        offer.quantity_limit = limit;
    }
    if let Some(expiration) = expiration {
        offer.expiration = expiration;
    }
    Ok(())
}

/// Flip an offer between active and inactive; nothing else about the offer
/// changes.
pub fn toggle_redemption_offer(offer: &mut RedemptionOffer)
    ensures
        final(offer).is_active == !old(offer).is_active,
        final(offer).merchant == old(offer).merchant,
        final(offer).loyalty_program == old(offer).loyalty_program,
        final(offer).name@ == old(offer).name@,
        final(offer).description@ == old(offer).description@,
        final(offer).icon@ == old(offer).icon@,
        final(offer).cost == old(offer).cost,
        final(offer).offer_type == old(offer).offer_type,
        final(offer).quantity_limit == old(offer).quantity_limit,
        final(offer).quantity_claimed == old(offer).quantity_claimed,
        final(offer).expiration == old(offer).expiration,
        final(offer).created_at == old(offer).created_at,
{
    offer.is_active = !offer.is_active;
}

} // verus!
