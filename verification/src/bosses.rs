use vstd::prelude::*;
use vstd::string::*;

use crate::error::AppError;

verus! {

/// Largest damage a client may claim on the world boss in one attack.
pub const WORLD_BOSS_MAX_CLAIM: i64 = 1_000_000;

/// Checks the damage a client claims on the world boss: 1 to 1000000.
pub fn check_world_boss_claim(damage: i64) -> (r: Result<(), AppError>)
    ensures
        r is Ok <==> 1 <= damage <= 1_000_000,
        r matches Err(e) ==> (e matches AppError::Validation(m) && m@
            == "damage deve ser 1-1000000"@),
{
    if damage <= 0 || damage > WORLD_BOSS_MAX_CLAIM {
        return Err(AppError::Validation(String::from_str("damage deve ser 1-1000000")));
    }
    Ok(())
}

/// Largest damage the server grants on the world boss: half the leader's power plus
/// 1000, truncated toward zero.
pub open spec fn world_boss_cap_spec(power: int) -> int {
    let doubled = power + 2000;
    if doubled >= 0 {
        doubled / 2
    } else {
        -((-doubled) / 2)
    }
}

/// Largest damage the server grants on the world boss for a leader's power.
pub fn world_boss_cap(power: i64) -> (r: i64)
    ensures
        r == world_boss_cap_spec(power as int),
{
    let doubled = (power as i128) + 2000;
    let half = if doubled >= 0 {
        doubled / 2
    } else {
        -((-doubled) / 2)
    };
    half as i64
}

/// Damage applied on the world boss: the claim, lowered to the cap, and at least one.
pub fn world_boss_damage(claimed: i64, cap: i64) -> (r: i64)
    ensures
        r == if claimed <= cap {
            if claimed >= 1 {
                claimed
            } else {
                1
            }
        } else if cap >= 1 {
            cap
        } else {
            1
        },
        r >= 1,
{
    let capped = if claimed <= cap {
        claimed
    } else {
        cap
    };
    if capped >= 1 {
        capped
    } else {
        1
    }
}

/// Hit points of a boss after a hit, never below zero.
pub fn boss_hp_after(hp: i64, damage: i64) -> (r: i64)
    requires
        i64::MIN <= hp - damage <= i64::MAX,
    ensures
        r == if hp - damage > 0 {
            hp - damage
        } else {
            0
        },
{
    if hp - damage > 0 {
        hp - damage
    } else {
        0
    }
}

/// Checks that the raid boss can still be attacked: it has hit points left.
pub fn check_raid_alive(hp: i64) -> (r: Result<(), AppError>)
    ensures
        r is Ok <==> hp > 0,
        r matches Err(e) ==> (e matches AppError::Validation(m) && m@
            == "raid já derrotado, aguarde reset Seg/Qui"@),
{
    if hp <= 0 {
        return Err(AppError::Validation(String::from_str("raid já derrotado, aguarde reset Seg/Qui")));
    }
    Ok(())
}

} // verus!
