use vstd::prelude::*;
use vstd::string::*;

use crate::error::AppError;
use crate::text::{decimal_spec, with_decimal};

verus! {

/// Kind of an upgradable cosmetic.
#[derive(Clone, Copy, Debug, PartialEq, Eq, Structural)]
pub enum CosmeticType {
    Wings,
    Mount,
}

/// Highest tier of a cosmetic kind.
pub open spec fn max_tier_spec(kind: CosmeticType) -> i16 {
    match kind {
        CosmeticType::Wings => 3,
        CosmeticType::Mount => 2,
    }
}

impl CosmeticType {
    /// Stored name of the kind.
    pub fn code(&self) -> (r: &'static str)
        ensures
            r@ == match *self {
                CosmeticType::Wings => "wings"@,
                CosmeticType::Mount => "mount"@,
            },
    {
        match self {
            CosmeticType::Wings => "wings",
            CosmeticType::Mount => "mount",
        }
    }

    /// Highest tier of the kind: three for wings, two for mounts.
    pub fn max_tier(&self) -> (r: i16)
        ensures
            r == max_tier_spec(*self),
    {
        match self {
            CosmeticType::Wings => 3,
            CosmeticType::Mount => 2,
        }
    }
}

/// Result of a cosmetic upgrade: the fragments spent and the new tier and stars.
#[derive(Clone, Copy, Debug, PartialEq, Eq, Structural)]
pub struct UpgradePlan {
    pub cost: i32,
    pub tier: i16,
    pub stars: i16,
    pub tier_up: bool,
}

/// Whether a cosmetic is fully upgraded: top tier with ten stars.
pub open spec fn maxed(kind: CosmeticType, tier: i16, stars: i16) -> bool {
    tier >= max_tier_spec(kind) && stars >= 10
}

/// Fragments an upgrade costs: tier times (stars + 1) times ten.
pub open spec fn upgrade_cost_spec(tier: i16, stars: i16) -> int {
    tier * (stars + 1) * 10
}

/// Plans an upgrade: a star per upgrade; the tenth star of a tier below the top turns
/// into the next tier with no stars; the top tier holds up to ten stars.
pub fn plan_upgrade(kind: CosmeticType, tier: i16, stars: i16, fragments: i32) -> (r: Result<
    UpgradePlan,
    AppError,
>)
    requires
        stars < i16::MAX,
        i32::MIN <= upgrade_cost_spec(tier, stars) <= i32::MAX,
    ensures
        r is Ok <==> (!maxed(kind, tier, stars) && fragments >= upgrade_cost_spec(tier, stars)),
        maxed(kind, tier, stars) ==> (r matches Err(AppError::Validation(m)) && m@
            == "cosmético já está no máximo"@),
        !maxed(kind, tier, stars) && fragments < upgrade_cost_spec(tier, stars) ==> (r matches Err(
            AppError::Validation(m),
        ) && m@ == "fragmentos insuficientes: são necessários "@ + decimal_spec(
            upgrade_cost_spec(tier, stars),
        )),
        r matches Ok(plan) ==> {
            &&& plan.cost == upgrade_cost_spec(tier, stars)
            &&& plan.tier_up == (stars == 9 && tier < max_tier_spec(kind))
            &&& plan.tier == if plan.tier_up {
                tier + 1
            } else {
                tier as int
            }
            &&& plan.stars == if plan.tier_up {
                0
            } else {
                stars + 1
            }
        },
{
    let max = kind.max_tier();
    if tier >= max && stars >= 10 {
        return Err(AppError::Validation(String::from_str("cosmético já está no máximo")));
    }
    let cost = (tier as i32) * ((stars as i32) + 1) * 10;
    if fragments < cost {
        return Err(
            AppError::Validation(
                with_decimal("fragmentos insuficientes: são necessários ", cost as i64),
            ),
        );
    }
    let tier_up = stars == 9 && tier < max;
    let new_stars = if tier_up {
        0
    } else {
        stars + 1
    };
    let new_tier = if tier_up {
        tier + 1
    } else {
        tier
    };
    Ok(UpgradePlan { cost, tier: new_tier, stars: new_stars, tier_up })
}

/// A reachable cosmetic state: a tier from one to the top, with up to nine stars below
/// the top tier and up to ten on it.
pub open spec fn progress_valid(kind: CosmeticType, tier: int, stars: int) -> bool {
    &&& 1 <= tier <= max_tier_spec(kind)
    &&& 0 <= stars
    &&& (stars <= 9 || (tier == max_tier_spec(kind) && stars == 10))
}

/// Every upgrade from a reachable state leads to a reachable state that is strictly
/// further along (a higher tier, or the same tier with more stars).
pub proof fn lemma_upgrade_progresses(kind: CosmeticType, tier: i16, stars: i16)
    requires
        progress_valid(kind, tier as int, stars as int),
        !maxed(kind, tier, stars),
    ensures
        ({
            let tier_up = stars == 9 && tier < max_tier_spec(kind);
            let new_tier: int = if tier_up {
                tier + 1
            } else {
                tier as int
            };
            let new_stars: int = if tier_up {
                0
            } else {
                stars + 1
            };
            &&& progress_valid(kind, new_tier, new_stars)
            &&& (new_tier > tier || (new_tier == tier && new_stars > stars))
        }),
{
}

} // verus!
