use vstd::prelude::*;
use vstd::string::*;

use crate::error::AppError;
use crate::text::{append_decimal, decimal_spec, with_decimal};

verus! {

/// Arena fights a player has per day before VIP bonuses.
pub const BASE_DAILY_FIGHTS: i32 = 5;

/// Rating points won or lost per arena fight.
pub const RATING_DELTA: i32 = 15;

/// Arena tier of a rating.
pub open spec fn tier_spec(rating: i32) -> Seq<char> {
    if 0 <= rating <= 1099 {
        "bronze"@
    } else if 1100 <= rating <= 1299 {
        "prata"@
    } else if 1300 <= rating <= 1499 {
        "ouro"@
    } else if 1500 <= rating <= 1699 {
        "platina"@
    } else if 1700 <= rating <= 1899 {
        "diamante"@
    } else if 1900 <= rating <= 2099 {
        "mestre"@
    } else if 2100 <= rating <= 2399 {
        "lenda"@
    } else if 2400 <= rating <= 2699 {
        "divino"@
    } else {
        "primordial"@
    }
}

/// Arena tier of a rating; ratings outside the listed brackets (2700 and up, or
/// negative) are primordial.
pub fn tier_for_rating(rating: i32) -> (r: &'static str)
    ensures
        r@ == tier_spec(rating),
{
    if 0 <= rating && rating <= 1099 {
        "bronze"
    } else if 1100 <= rating && rating <= 1299 {
        "prata"
    } else if 1300 <= rating && rating <= 1499 {
        "ouro"
    } else if 1500 <= rating && rating <= 1699 {
        "platina"
    } else if 1700 <= rating && rating <= 1899 {
        "diamante"
    } else if 1900 <= rating && rating <= 2099 {
        "mestre"
    } else if 2100 <= rating && rating <= 2399 {
        "lenda"
    } else if 2400 <= rating && rating <= 2699 {
        "divino"
    } else {
        "primordial"
    }
}

/// Extra daily arena fights of a VIP level.
pub open spec fn vip_bonus_spec(vip_level: i16) -> i32 {
    if 0 <= vip_level <= 2 {
        0
    } else if 3 <= vip_level <= 5 {
        1
    } else if 6 <= vip_level <= 8 {
        2
    } else if 9 <= vip_level <= 10 {
        5
    } else if 11 <= vip_level <= 13 {
        10
    } else if 14 <= vip_level <= 15 {
        15
    } else {
        0
    }
}

/// Extra daily arena fights of a VIP level.
pub fn vip_bonus(vip_level: i16) -> (r: i32)
    ensures
        r == vip_bonus_spec(vip_level),
{
    if 0 <= vip_level && vip_level <= 2 {
        0
    } else if 3 <= vip_level && vip_level <= 5 {
        1
    } else if 6 <= vip_level && vip_level <= 8 {
        2
    } else if 9 <= vip_level && vip_level <= 10 {
        5
    } else if 11 <= vip_level && vip_level <= 13 {
        10
    } else if 14 <= vip_level && vip_level <= 15 {
        15
    } else {
        0
    }
}

/// Fights left today: five plus the VIP bonus, minus the fights fought, never below zero.
pub fn remaining_fights(daily_fights: i32, bonus: i32) -> (r: i32)
    requires
        5 + bonus <= i32::MAX,
        i32::MIN <= 5 + bonus - daily_fights <= i32::MAX,
    ensures
        r == if 5 + bonus - daily_fights > 0 {
            5 + bonus - daily_fights
        } else {
            0
        },
{
    let left = 5 + bonus - daily_fights;
    if left > 0 {
        left
    } else {
        0
    }
}

/// Checks that a player has an arena fight left today.
pub fn check_daily_fights(daily_fights: i32, bonus: i32) -> (r: Result<(), AppError>)
    requires
        5 + bonus <= i32::MAX,
    ensures
        r is Ok <==> daily_fights < 5 + bonus,
        r matches Err(e) ==> (e matches AppError::Validation(m) && m@ == "limite diário "@
            + decimal_spec(5 + bonus) + " atingido (VIP +"@ + decimal_spec(bonus as int) + ")"@),
{
    let max = 5 + bonus;
    if daily_fights >= max {
        let mut message = with_decimal("limite diário ", max as i64);
        message.append(" atingido (VIP +");
        append_decimal(&mut message, bonus as i64);
        message.append(")");
        return Err(AppError::Validation(message));
    }
    Ok(())
}

/// Rating after a fight: fifteen points won on a victory, fifteen lost on a defeat but
/// never below zero.
pub fn rating_after(rating: i32, victory: bool) -> (r: i32)
    requires
        rating <= i32::MAX - 15,
        rating >= i32::MIN + 15,
    ensures
        r == if victory {
            rating + 15
        } else if rating - 15 > 0 {
            rating - 15
        } else {
            0
        },
{
    if victory {
        rating + RATING_DELTA
    } else if rating - RATING_DELTA > 0 {
        rating - RATING_DELTA
    } else {
        0
    }
}

/// `value * num / den` truncated toward zero and kept within the range of `i64`.
pub open spec fn scaled_truncated(value: int, num: int, den: int) -> int {
    let exact = if value * num >= 0 {
        (value * num) / den
    } else {
        -((-(value * num)) / den)
    };
    if exact > i64::MAX {
        i64::MAX as int
    } else if exact < i64::MIN {
        i64::MIN as int
    } else {
        exact
    }
}

fn scale_truncated(value: i64, num: i128, den: i128) -> (r: i64)
    requires
        0 < num <= 100,
        0 < den <= 100,
    ensures
        r == scaled_truncated(value as int, num as int, den as int),
{
    let v = value as i128;
    assert(-10_000_000_000_000_000_000_000 <= v * num <= 10_000_000_000_000_000_000_000) by (
    nonlinear_arith)
        requires
            0 < num <= 100,
            -9_223_372_036_854_775_808 <= v <= 9_223_372_036_854_775_807,
    ;
    let product = v * num;
    let exact = if product >= 0 {
        product / den
    } else {
        -((-product) / den)
    };
    if exact > i64::MAX as i128 {
        i64::MAX
    } else if exact < i64::MIN as i128 {
        i64::MIN
    } else {
        exact as i64
    }
}

/// Power range in which an opponent is sought: 75% to 125% of the player's power.
pub fn matchmaking_window(power: i64) -> (r: (i64, i64))
    ensures
        r.0 == scaled_truncated(power as int, 3, 4),
        r.1 == scaled_truncated(power as int, 5, 4),
{
    (scale_truncated(power, 3, 4), scale_truncated(power, 5, 4))
}

/// Power of the bot fought when no opponent is in range: 90% of the player's power.
pub fn bot_power(power: i64) -> (r: i64)
    ensures
        r == scaled_truncated(power as int, 9, 10),
{
    scale_truncated(power, 9, 10)
}

/// For a non-negative power, the search window contains the player's own power.
pub proof fn lemma_window_contains_power(power: i64)
    requires
        0 <= power,
    ensures
        scaled_truncated(power as int, 3, 4) <= power <= scaled_truncated(power as int, 5, 4),
{
    assert(power * 3 / 4 <= power) by (nonlinear_arith)
        requires
            0 <= power,
    ;
    assert(power <= power * 5 / 4) by (nonlinear_arith)
        requires
            0 <= power,
    ;
}

} // verus!
