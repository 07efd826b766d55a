use vstd::prelude::*;
use vstd::string::*;

use crate::error::{rejected_with, AppError};
use crate::text::{decimal_spec, text_eq, with_decimal};

verus! {

/// Equipment slots an item can occupy.
pub open spec fn slot_known(slot: Seq<char>) -> bool {
    ||| slot == "head"@
    ||| slot == "main_hand"@
    ||| slot == "chest"@
    ||| slot == "off_hand"@
    ||| slot == "legs"@
    ||| slot == "ring"@
    ||| slot == "feet"@
    ||| slot == "necklace"@
    ||| slot == "hands"@
    ||| slot == "relic"@
}

/// Whether an index is valid for a slot: rings have two indices (1 and 2), every other
/// slot has one (1).
pub open spec fn slot_index_valid(slot: Seq<char>, index: i16) -> bool {
    if slot == "ring"@ {
        1 <= index <= 2
    } else {
        index == 1
    }
}

/// Slot index used when a request gives none.
pub fn default_slot_index() -> (r: i16)
    ensures
        r == 1,
{
    1
}

/// Checks an equipment slot and index.
pub fn validate_slot_index(slot: &str, index: i16) -> (r: Result<(), AppError>)
    ensures
        r is Ok <==> slot_known(slot@) && slot_index_valid(slot@, index),
        !slot_known(slot@) ==> (r matches Err(AppError::Validation(m)) && m@ == "slot inválido"@),
        slot_known(slot@) && !slot_index_valid(slot@, index) ==> (r matches Err(
            AppError::Validation(m),
        ) && m@ == "índice de slot inválido"@),
{
    let known = text_eq(slot, "head") || text_eq(slot, "main_hand") || text_eq(slot, "chest")
        || text_eq(slot, "off_hand") || text_eq(slot, "legs") || text_eq(slot, "ring") || text_eq(
        slot,
        "feet",
    ) || text_eq(slot, "necklace") || text_eq(slot, "hands") || text_eq(slot, "relic");
    if !known {
        return Err(AppError::Validation(String::from_str("slot inválido")));
    }
    let valid = if text_eq(slot, "ring") {
        1 <= index && index <= 2
    } else {
        index == 1
    };
    if !valid {
        return Err(AppError::Validation(String::from_str("índice de slot inválido")));
    }
    Ok(())
}

/// Slot in which an item is equipped: the item's slot, which must exist (the item is
/// equipable) and accept the index.
pub fn equip_slot(item_slot: Option<String>, index: i16) -> (r: Result<String, AppError>)
    ensures
        r is Ok <==> (item_slot matches Some(s) && slot_known(s@) && slot_index_valid(s@, index)),
        r matches Ok(s) ==> item_slot == Some(s),
        item_slot is None ==> rejected_with(r, "este item não é equipável"@),
        item_slot matches Some(s) && !slot_known(s@) ==> rejected_with(r, "slot inválido"@),
        item_slot matches Some(s) && slot_known(s@) && !slot_index_valid(s@, index)
            ==> rejected_with(r, "índice de slot inválido"@),
{
    match item_slot {
        None => Err(AppError::Validation(String::from_str("este item não é equipável"))),
        Some(slot) => {
            validate_slot_index(slot.as_str(), index)?;
            Ok(slot)
        },
    }
}

/// Highest enhancement level of an item.
pub const MAX_ENHANCEMENT: i16 = 20;

/// Chance, in percent, that an enhancement to `target` succeeds.
pub open spec fn enhancement_chance_spec(target: i16) -> u8 {
    if 1 <= target <= 10 {
        100
    } else if 11 <= target <= 14 {
        80
    } else if 15 <= target <= 17 {
        60
    } else if 18 <= target <= 19 {
        40
    } else if target == 20 {
        20
    } else {
        0
    }
}

/// Chance, in percent, that an enhancement to `target` succeeds: certain up to +10,
/// then 80%, 60%, 40% and 20% at +20.
pub fn enhancement_chance(target: i16) -> (r: u8)
    ensures
        r == enhancement_chance_spec(target),
{
    if 1 <= target && target <= 10 {
        100
    } else if 11 <= target && target <= 14 {
        80
    } else if 15 <= target && target <= 17 {
        60
    } else if 18 <= target && target <= 19 {
        40
    } else if target == 20 {
        20
    } else {
        0
    }
}

/// An enhancement attempt: the level aimed at and the fragments it costs.
#[derive(Clone, Copy, Debug, PartialEq, Eq, Structural)]
pub struct EnhancePlan {
    pub target: i16,
    pub cost: i64,
}

/// Plans an enhancement from level `current`: it aims at the next level and costs five
/// fragments per level aimed at; items at +20 cannot be enhanced.
pub fn plan_enhancement(current: i16) -> (r: Result<EnhancePlan, AppError>)
    ensures
        r is Ok <==> current < 20,
        r matches Ok(plan) ==> plan.target == current + 1 && plan.cost == (current + 1) * 5,
        r matches Err(e) ==> (e matches AppError::Validation(m) && m@
            == "item já está no enhancement máximo"@),
{
    if current >= 20 {
        return Err(AppError::Validation(String::from_str("item já está no enhancement máximo")));
    }
    let target = current + 1;
    Ok(EnhancePlan { target, cost: (target as i64) * 5 })
}

/// Material code of the fragments of an item tier.
pub fn fragment_material(tier: i16) -> (r: String)
    ensures
        r@ == "item_fragment_t"@ + decimal_spec(tier as int),
{
    with_decimal("item_fragment_t", tier as i64)
}

/// Error reported when fragments do not cover the cost.
pub fn insufficient_fragments(cost: i64) -> (e: AppError)
    ensures
        e matches AppError::Validation(m) && m@ == "fragmentos insuficientes: são necessários "@
            + decimal_spec(cost as int),
{
    AppError::Validation(with_decimal("fragmentos insuficientes: são necessários ", cost))
}

/// Level after an attempt: the target on success, unchanged on failure.
pub fn enhancement_outcome(plan: EnhancePlan, current: i16, success: bool) -> (r: i16)
    ensures
        r == if success {
            plan.target
        } else {
            current
        },
{
    if success {
        plan.target
    } else {
        current
    }
}

/// An enhancement attempt never lowers an item and never takes it past +20: from any
/// level below +20, the planned target is the next level, and the level after the
/// attempt is that target on success and the old level on failure.
pub proof fn lemma_enhancement_in_range(current: i16, success: bool)
    requires
        0 <= current < 20,
    ensures
        ({
            let target = current + 1;
            let after = if success {
                target
            } else {
                current as int
            };
            &&& current <= after <= 20
            &&& enhancement_chance_spec(target as i16) > 0
        }),
{
}

/// Multiplier, in percent, that an enhancement level applies to an item's stats: 8%
/// per level.
pub fn enhancement_multiplier_percent(enhancement: i16) -> (r: i64)
    ensures
        r == 100 + 8 * enhancement,
{
    100 + 8 * (enhancement as i64)
}

/// A higher enhancement level never lowers the multiplier, and every level adds the
/// same eight percent.
pub proof fn lemma_enhancement_multiplier(low: i16, high: i16)
    requires
        low <= high,
    ensures
        100 + 8 * low <= 100 + 8 * high,
        (100 + 8 * high) - (100 + 8 * low) == 8 * (high - low),
{
}

/// Stats that wings and mounts add to every character.
#[derive(Clone, Copy, Debug, PartialEq, Eq, Structural)]
pub struct CosmeticBonus {
    pub attack: i64,
    pub hp: i64,
    pub defense: i64,
    pub crit_rate_thousandths: i64,
}

/// Progress of a cosmetic: ten steps per tier above the first, plus its stars.
pub open spec fn cosmetic_progress_spec(tier: i16, stars: i16) -> int {
    (tier - 1) * 10 + stars
}

/// Bonus of a cosmetic: wings give 10 attack plus 3 per progress step and 0.002
/// critical rate per step; a mount gives 50 hit points plus 20 per step and 5 defense
/// plus 2 per step; other kinds give nothing.
pub open spec fn cosmetic_bonus_spec(kind: Seq<char>, tier: i16, stars: i16) -> CosmeticBonus {
    let p = cosmetic_progress_spec(tier, stars);
    if kind == "wings"@ {
        CosmeticBonus { attack: (10 + p * 3) as i64, hp: 0, defense: 0, crit_rate_thousandths: (p
            * 2) as i64 }
    } else if kind == "mount"@ {
        CosmeticBonus { attack: 0, hp: (50 + p * 20) as i64, defense: (5 + p * 2) as i64, crit_rate_thousandths: 0 }
    } else {
        CosmeticBonus { attack: 0, hp: 0, defense: 0, crit_rate_thousandths: 0 }
    }
}

/// Bonus of a cosmetic of a kind, tier and stars.
pub fn cosmetic_bonus(kind: &str, tier: i16, stars: i16) -> (r: CosmeticBonus)
    requires
        tier > i16::MIN,
    ensures
        r == cosmetic_bonus_spec(kind@, tier, stars),
{
    let progress = ((tier - 1) as i64) * 10 + (stars as i64);
    if text_eq(kind, "wings") {
        CosmeticBonus { attack: 10 + progress * 3, hp: 0, defense: 0, crit_rate_thousandths: progress * 2 }
    } else if text_eq(kind, "mount") {
        CosmeticBonus { attack: 0, hp: 50 + progress * 20, defense: 5 + progress * 2, crit_rate_thousandths: 0 }
    } else {
        CosmeticBonus { attack: 0, hp: 0, defense: 0, crit_rate_thousandths: 0 }
    }
}

} // verus!
