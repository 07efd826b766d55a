use vstd::prelude::*;
use vstd::string::*;

use crate::error::AppError;
use crate::text::{append_decimal, decimal_spec, with_decimal};

verus! {

/// Rewards of a battle pass level on the free and premium tracks.
#[derive(Debug)]
pub struct LevelReward {
    pub level: i16,
    pub free: String,
    pub premium: String,
}

/// Free and premium rewards of a battle pass level.
pub open spec fn rewards_spec(level: i16) -> (Seq<char>, Seq<char>) {
    if level == 1 {
        ("500 Gold"@, "2000 Gold"@)
    } else if level == 5 {
        ("Frag Asa ×10"@, "Frag Asa ×30"@)
    } else if level == 10 {
        ("Box Raro"@, "Box Épico"@)
    } else if level == 15 {
        ("Frag Mont ×10"@, "Frag Mont ×30"@)
    } else if level == 20 {
        ("100 Diamantes"@, "500 Diamantes"@)
    } else if level == 25 {
        ("Frag Pet ×10"@, "Frag Pet ×30"@)
    } else if level == 30 {
        ("Runa Box"@, "Runa Box Épica"@)
    } else if level == 35 {
        ("Essência ×1"@, "Essência ×3"@)
    } else if level == 40 {
        ("Box Épico"@, "Box Lendário"@)
    } else if level == 45 {
        ("200 Diamantes"@, "1000 Diamantes"@)
    } else if level == 50 {
        ("Título+Frame"@, "SKIN EXCLUSIVA + Aura+Trail + 2000 Diamantes (NUNCA retorna)"@)
    } else {
        ("Gold/fragmentos"@, "Gold/fragmentos premium"@)
    }
}

/// Rewards of a battle pass level; milestone levels have their own rewards.
pub fn rewards_for(level: i16) -> (r: LevelReward)
    ensures
        r.level == level,
        (r.free@, r.premium@) == rewards_spec(level),
{
    let (free, premium) = if level == 1 {
        ("500 Gold", "2000 Gold")
    } else if level == 5 {
        ("Frag Asa ×10", "Frag Asa ×30")
    } else if level == 10 {
        ("Box Raro", "Box Épico")
    } else if level == 15 {
        ("Frag Mont ×10", "Frag Mont ×30")
    } else if level == 20 {
        ("100 Diamantes", "500 Diamantes")
    } else if level == 25 {
        ("Frag Pet ×10", "Frag Pet ×30")
    } else if level == 30 {
        ("Runa Box", "Runa Box Épica")
    } else if level == 35 {
        ("Essência ×1", "Essência ×3")
    } else if level == 40 {
        ("Box Épico", "Box Lendário")
    } else if level == 45 {
        ("200 Diamantes", "1000 Diamantes")
    } else if level == 50 {
        ("Título+Frame", "SKIN EXCLUSIVA + Aura+Trail + 2000 Diamantes (NUNCA retorna)")
    } else {
        ("Gold/fragmentos", "Gold/fragmentos premium")
    };
    LevelReward { level, free: String::from_str(free), premium: String::from_str(premium) }
}

/// Rewards of every level of a season, from level 1 to level 50.
pub fn season_rewards() -> (r: Vec<LevelReward>)
    ensures
        r@.len() == 50,
        forall|i: int|
            0 <= i < 50 ==> (#[trigger] r@[i]).level == i + 1 && (r@[i].free@, r@[i].premium@)
                == rewards_spec((i + 1) as i16),
{
    let mut out: Vec<LevelReward> = Vec::new();
    let mut level: i16 = 1;
    while level <= 50
        invariant
            1 <= level <= 51,
            out@.len() == level - 1,
            forall|i: int|
                0 <= i < level - 1 ==> (#[trigger] out@[i]).level == i + 1 && (
                out@[i].free@,
                out@[i].premium@,
            ) == rewards_spec((i + 1) as i16),
        decreases 51 - level,
    {
        out.push(rewards_for(level));
        level = level + 1;
    }
    out
}

/// Checks that a player's diamonds cover the premium track of a season.
pub fn check_premium_funds(diamonds: i64, premium_cost: i32) -> (r: Result<(), AppError>)
    ensures
        r is Ok <==> diamonds >= premium_cost,
        r matches Err(e) ==> (e matches AppError::Validation(m) && m@
            == "diamantes insuficientes: precisa "@ + decimal_spec(premium_cost as int)),
{
    if diamonds < premium_cost as i64 {
        return Err(
            AppError::Validation(with_decimal("diamantes insuficientes: precisa ", premium_cost as i64)),
        );
    }
    Ok(())
}

/// Experience the next battle pass level requires: a thousand per level.
pub fn next_level_xp(level: i16) -> (r: i64)
    ensures
        r == (level + 1) * 1000,
{
    (level as i64 + 1) * 1000
}

/// Checks a claimed battle pass level: 1 to 50.
pub fn check_claim_level(level: i16) -> (r: Result<(), AppError>)
    ensures
        r is Ok <==> 1 <= level <= 50,
        r matches Err(e) ==> (e matches AppError::Validation(m) && m@ == "level deve ser 1-50"@),
{
    if !(1 <= level && level <= 50) {
        return Err(AppError::Validation(String::from_str("level deve ser 1-50")));
    }
    Ok(())
}

/// Checks that a player may claim a level: enough experience (a thousand per level),
/// then the level reached.
pub fn check_claim(level: i16, xp: i64, progress_level: i16) -> (r: Result<(), AppError>)
    ensures
        r is Ok <==> (xp >= level * 1000 && progress_level >= level),
        xp < level * 1000 ==> (r matches Err(AppError::Validation(m)) && m@ == "XP insuficiente: "@
            + decimal_spec(xp as int) + "/"@ + decimal_spec(level * 1000)),
        xp >= level * 1000 && progress_level < level ==> (r matches Err(AppError::Validation(m))
            && m@ == "level ainda não alcançado"@),
{
    let required = (level as i64) * 1000;
    if xp < required {
        let mut message = with_decimal("XP insuficiente: ", xp);
        message.append("/");
        append_decimal(&mut message, required);
        return Err(AppError::Validation(message));
    }
    if progress_level < level {
        return Err(AppError::Validation(String::from_str("level ainda não alcançado")));
    }
    Ok(())
}

} // verus!
