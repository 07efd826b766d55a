use vstd::prelude::*;
use vstd::string::*;

use crate::arena::scaled_truncated;
use crate::drops::{chacha8_first_word, limited_spec, rarity_from_word_spec, roll_rarity, Rarity};
use crate::error::AppError;
use crate::progression::{
    add_experience, add_experience_spec, below_zero_refund, grant_spec, saturating_add_spec,
};

verus! {

/// Difficulty of a stage attempt.
#[derive(Clone, Copy, Debug, PartialEq, Eq, Structural)]
pub enum Difficulty {
    Normal,
    Hard,
    Inferno,
    Chaos,
}

/// A request to fight a stage.
#[derive(Clone, Copy, Debug, PartialEq, Eq, Structural)]
pub struct StartCombat {
    pub stage: u16,
    pub difficulty: Difficulty,
}

/// Last stage of the current release.
pub const LAST_STAGE: u16 = 50;

/// Time limit of a stage duel in milliseconds.
pub const DUEL_TIME_LIMIT_MS: u64 = 180_000;

/// Enemy hit points and attack multiplier of a difficulty, in percent.
pub open spec fn enemy_percent_spec(d: Difficulty) -> i64 {
    match d {
        Difficulty::Normal => 100,
        Difficulty::Hard => 125,
        Difficulty::Inferno => 160,
        Difficulty::Chaos => 220,
    }
}

/// Reward multiplier of a difficulty, in percent.
pub open spec fn reward_percent_spec(d: Difficulty) -> i64 {
    match d {
        Difficulty::Normal => 100,
        Difficulty::Hard => 120,
        Difficulty::Inferno => 150,
        Difficulty::Chaos => 200,
    }
}

/// Drop bonus of a difficulty, in millionths.
pub open spec fn drop_bonus_spec(d: Difficulty) -> i64 {
    match d {
        Difficulty::Normal => 0,
        Difficulty::Hard => 20_000,
        Difficulty::Inferno => 50_000,
        Difficulty::Chaos => 100_000,
    }
}

impl Difficulty {
    /// Enemy hit points and attack multiplier, in percent.
    pub fn enemy_percent(&self) -> (r: i64)
        ensures
            r == enemy_percent_spec(*self),
    {
        match self {
            Difficulty::Normal => 100,
            Difficulty::Hard => 125,
            Difficulty::Inferno => 160,
            Difficulty::Chaos => 220,
        }
    }

    /// Reward multiplier, in percent.
    pub fn reward_percent(&self) -> (r: i64)
        ensures
            r == reward_percent_spec(*self),
    {
        match self {
            Difficulty::Normal => 100,
            Difficulty::Hard => 120,
            Difficulty::Inferno => 150,
            Difficulty::Chaos => 200,
        }
    }

    /// Drop bonus, in millionths.
    pub fn drop_bonus_ppm(&self) -> (r: i64)
        ensures
            r == drop_bonus_spec(*self),
    {
        match self {
            Difficulty::Normal => 0,
            Difficulty::Hard => 20_000,
            Difficulty::Inferno => 50_000,
            Difficulty::Chaos => 100_000,
        }
    }
}

/// Stored name of a difficulty.
pub fn difficulty_name(value: &Difficulty) -> (r: &'static str)
    ensures
        r@ == match *value {
            Difficulty::Normal => "normal"@,
            Difficulty::Hard => "hard"@,
            Difficulty::Inferno => "inferno"@,
            Difficulty::Chaos => "chaos"@,
        },
{
    match value {
        Difficulty::Normal => "normal",
        Difficulty::Hard => "hard",
        Difficulty::Inferno => "inferno",
        Difficulty::Chaos => "chaos",
    }
}

/// Checks that a stage belongs to the release: 1 to 50.
pub fn check_stage_number(stage: u16) -> (r: Result<(), AppError>)
    ensures
        r is Ok <==> 1 <= stage <= 50,
        r matches Err(e) ==> (e matches AppError::Validation(m) && m@
            == "o MVP contém as fases 1 a 50"@),
{
    if !(1 <= stage && stage <= LAST_STAGE) {
        return Err(AppError::Validation(String::from_str("o MVP contém as fases 1 a 50")));
    }
    Ok(())
}

/// Checks that a stage is open to a player: at most one past the highest stage cleared.
pub fn check_stage_unlocked(stage: u16, max_stage: i32) -> (r: Result<(), AppError>)
    ensures
        r is Ok <==> stage <= max_stage + 1,
        r matches Err(e) ==> (e matches AppError::Validation(m) && m@
            == "conclua a fase anterior primeiro"@),
{
    if (stage as i64) > (max_stage as i64) + 1 {
        return Err(AppError::Validation(String::from_str("conclua a fase anterior primeiro")));
    }
    Ok(())
}

/// Checks that a squad has members to fight with.
pub fn check_squad_not_empty(members: usize) -> (r: Result<(), AppError>)
    ensures
        r is Ok <==> members > 0,
        r matches Err(e) ==> (e matches AppError::Validation(m) && m@ == "squad vazio"@),
{
    if members == 0 {
        return Err(AppError::Validation(String::from_str("squad vazio")));
    }
    Ok(())
}

/// An enemy stat under a difficulty: scaled by the difficulty's percentage and
/// truncated toward zero.
pub fn scale_enemy_stat(value: i64, difficulty: Difficulty) -> (r: i64)
    ensures
        r == scaled_truncated(value as int, enemy_percent_spec(difficulty) as int, 100),
{
    let percent = difficulty.enemy_percent() as i128;
    let v = value as i128;
    assert(-10_000_000_000_000_000_000_000 <= v * percent <= 10_000_000_000_000_000_000_000) by (
    nonlinear_arith)
        requires
            0 < percent <= 220,
            -9_223_372_036_854_775_808 <= v <= 9_223_372_036_854_775_807,
    ;
    let product = v * percent;
    let exact = if product >= 0 {
        product / 100
    } else {
        -((-product) / 100)
    };
    if exact > i64::MAX as i128 {
        i64::MAX
    } else if exact < i64::MIN as i128 {
        i64::MIN
    } else {
        exact as i64
    }
}

/// Gold and experience of a stage: on a victory, 25 + 4 per stage gold scaled by the
/// difficulty's reward percentage (rounded down) and 15 + 3 per stage experience;
/// nothing on a defeat.
pub open spec fn stage_rewards_spec(stage: u16, difficulty: Difficulty, victory: bool) -> (i64, i64) {
    if victory {
        (
            ((25 + 4 * stage) * reward_percent_spec(difficulty) / 100) as i64,
            (15 + 3 * stage) as i64,
        )
    } else {
        (0, 0)
    }
}

/// Gold and experience of a stage attempt.
pub fn stage_rewards(stage: u16, difficulty: Difficulty, victory: bool) -> (r: (i64, i64))
    ensures
        r == stage_rewards_spec(stage, difficulty, victory),
{
    if victory {
        let base = 25 + 4 * (stage as i64);
        ((base * difficulty.reward_percent()) / 100, 15 + 3 * (stage as i64))
    } else {
        (0, 0)
    }
}

/// Harder difficulties pay at least as much for the same stage, and a later stage pays
/// at least as much at the same difficulty.
pub proof fn lemma_rewards_grow(stage: u16, later: u16, difficulty: Difficulty, harder: Difficulty)
    requires
        stage <= later,
        reward_percent_spec(difficulty) <= reward_percent_spec(harder),
    ensures
        stage_rewards_spec(stage, difficulty, true).0 <= stage_rewards_spec(stage, harder, true).0,
        stage_rewards_spec(stage, difficulty, true).0 <= stage_rewards_spec(later, difficulty, true).0,
        stage_rewards_spec(stage, difficulty, true).1 <= stage_rewards_spec(later, difficulty, true).1,
{
    let p = reward_percent_spec(difficulty) as int;
    let q = reward_percent_spec(harder) as int;
    let b = 25 + 4 * stage;
    let c = 25 + 4 * later;
    assert(b * p / 100 <= b * q / 100) by (nonlinear_arith)
        requires
            0 < b,
            0 < p <= q,
    ;
    assert(b * p / 100 <= c * p / 100) by (nonlinear_arith)
        requires
            0 < b <= c,
            0 < p,
    ;
}

/// Mixed into the combat seed before the drop roll, so that the drop does not repeat the
/// duel's first draw.
pub const DROP_SEED_SALT: u64 = 0xA5CE_D1A0;

/// What a resolved stage attempt grants: gold, experience, the dropped item's rarity on
/// a victory, and the Leader's level and experience after the experience is applied.
#[derive(Clone, Copy, Debug, PartialEq, Eq, Structural)]
pub struct StageOutcome {
    pub gold: i64,
    pub experience: i64,
    pub drop: Option<Rarity>,
    pub leader_level: i16,
    pub leader_experience: i64,
}

/// The outcome of a stage attempt, from the request's stage and difficulty and from
/// server values alone: whether the duel was won, the server-drawn seed, the Leader's
/// luck (in millionths) and the Leader's level and experience.
pub open spec fn stage_outcome_spec(
    request: StartCombat,
    victory: bool,
    seed: u64,
    luck_ppm: i64,
    leader_level: i16,
    leader_experience: i64,
) -> StageOutcome {
    let (gold, experience) = stage_rewards_spec(request.stage, request.difficulty, victory);
    let leader = add_experience_spec(leader_level as int, leader_experience as int, experience as int);
    StageOutcome {
        gold,
        experience,
        drop: if victory {
            Some(
                limited_spec(
                    rarity_from_word_spec(
                        chacha8_first_word(seed ^ DROP_SEED_SALT),
                        luck_ppm as int,
                        drop_bonus_spec(request.difficulty) as int,
                    ),
                    request.stage as int,
                ),
            )
        } else {
            None
        },
        leader_level: leader.0 as i16,
        leader_experience: leader.1 as i64,
    }
}

/// Whether the Leader's experience can take a stage's experience without overflow.
pub open spec fn leader_can_gain(leader_level: i16, leader_experience: i64, gained: i64) -> bool {
    saturating_add_spec(leader_experience as int, grant_spec(gained as int))
        + below_zero_refund(leader_level as int) <= i64::MAX
}

/// Resolves what a stage attempt grants: the stage's gold and experience, a drop rolled
/// from the salted seed, the Leader's luck and the difficulty's bonus and capped by the
/// stage, on a victory; and the Leader's level and experience once the experience is
/// applied to the Leader.
pub fn stage_outcome(
    request: StartCombat,
    victory: bool,
    seed: u64,
    luck_ppm: i64,
    leader_level: i16,
    leader_experience: i64,
) -> (r: StageOutcome)
    requires
        leader_can_gain(
            leader_level,
            leader_experience,
            stage_rewards_spec(request.stage, request.difficulty, victory).1,
        ),
    ensures
        r == stage_outcome_spec(request, victory, seed, luck_ppm, leader_level, leader_experience),
{
    let (gold, experience) = stage_rewards(request.stage, request.difficulty, victory);
    let drop = if victory {
        Some(
            roll_rarity(seed ^ DROP_SEED_SALT, luck_ppm, request.difficulty.drop_bonus_ppm())
                .limited_to_stage(request.stage),
        )
    } else {
        None
    };
    let (level, exp) = add_experience(leader_level, leader_experience, experience);
    StageOutcome { gold, experience, drop, leader_level: level, leader_experience: exp }
}

/// Nothing but the stage and the difficulty comes from the client: two attempts with
/// the same request and the same server values (duel result, seed, luck, Leader) have
/// the same outcome.
pub proof fn lemma_outcome_from_server_values(
    first: StartCombat,
    second: StartCombat,
    victory: bool,
    seed: u64,
    luck_ppm: i64,
    leader_level: i16,
    leader_experience: i64,
)
    requires
        first.stage == second.stage,
        first.difficulty == second.difficulty,
    ensures
        stage_outcome_spec(first, victory, seed, luck_ppm, leader_level, leader_experience)
            == stage_outcome_spec(second, victory, seed, luck_ppm, leader_level, leader_experience),
{
    assert(first == second);
}

/// A victory grants 15 + 3 per stage experience and applies it to the Leader; a defeat
/// grants no gold, no experience and no drop.
pub proof fn lemma_victory_experience_reaches_leader(
    request: StartCombat,
    victory: bool,
    seed: u64,
    luck_ppm: i64,
    leader_level: i16,
    leader_experience: i64,
)
    ensures
        ({
            let out = stage_outcome_spec(request, victory, seed, luck_ppm, leader_level, leader_experience);
            let applied = add_experience_spec(
                leader_level as int,
                leader_experience as int,
                15 + 3 * request.stage,
            );
            &&& victory ==> out.experience == 15 + 3 * request.stage
            &&& victory ==> out.leader_level == applied.0 as i16
                && out.leader_experience == applied.1 as i64
            &&& !victory ==> out.gold == 0 && out.experience == 0 && out.drop is None
        }),
{
}


/// The rewards of a stage attempt, difficulty by difficulty: a victory pays 25 + 4 per
/// stage gold times 100% on Normal, 120% on Hard, 150% on Inferno and 200% on Chaos
/// (rounded down), and 15 + 3 per stage experience whatever the difficulty; a defeat
/// pays nothing. Each harder difficulty pays strictly more gold than the one before.
pub proof fn lemma_rewards_table(stage: u16, victory: bool)
    ensures
        stage_rewards_spec(stage, Difficulty::Normal, victory) == if victory {
            ((25 + 4 * stage) as i64, (15 + 3 * stage) as i64)
        } else {
            (0i64, 0i64)
        },
        stage_rewards_spec(stage, Difficulty::Hard, victory) == if victory {
            (((25 + 4 * stage) * 120 / 100) as i64, (15 + 3 * stage) as i64)
        } else {
            (0i64, 0i64)
        },
        stage_rewards_spec(stage, Difficulty::Inferno, victory) == if victory {
            (((25 + 4 * stage) * 150 / 100) as i64, (15 + 3 * stage) as i64)
        } else {
            (0i64, 0i64)
        },
        stage_rewards_spec(stage, Difficulty::Chaos, victory) == if victory {
            (((25 + 4 * stage) * 2) as i64, (15 + 3 * stage) as i64)
        } else {
            (0i64, 0i64)
        },
        stage_rewards_spec(stage, Difficulty::Normal, true).0 < stage_rewards_spec(
            stage,
            Difficulty::Hard,
            true,
        ).0,
        stage_rewards_spec(stage, Difficulty::Hard, true).0 < stage_rewards_spec(
            stage,
            Difficulty::Inferno,
            true,
        ).0,
        stage_rewards_spec(stage, Difficulty::Inferno, true).0 < stage_rewards_spec(
            stage,
            Difficulty::Chaos,
            true,
        ).0,
{
    let b = 25 + 4 * stage;
    assert(b * 100 / 100 == b) by (nonlinear_arith)
        requires
            b >= 25,
    ;
    assert(b * 200 / 100 == b * 2) by (nonlinear_arith)
        requires
            b >= 25,
    ;
    assert(b < b * 120 / 100 && b * 120 / 100 < b * 150 / 100 && b * 150 / 100 < b * 2)
        by (nonlinear_arith)
        requires
            b >= 25,
    ;
}

} // verus!
