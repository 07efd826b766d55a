use vstd::prelude::*;

use rand_chacha::rand_core::{RngCore, SeedableRng};
use rand_chacha::ChaCha8Rng;

verus! {

/// Rarity of a dropped item, from the most common to the rarest.
#[derive(Clone, Copy, Debug, PartialEq, Eq, Structural)]
pub enum Rarity {
    Common,
    Uncommon,
    Rare,
    Epic,
    Legendary,
    Mythic,
}

/// Position of a rarity in the order Common < ... < Mythic.
pub open spec fn rank_spec(rarity: Rarity) -> int {
    match rarity {
        Rarity::Common => 0,
        Rarity::Uncommon => 1,
        Rarity::Rare => 2,
        Rarity::Epic => 3,
        Rarity::Legendary => 4,
        Rarity::Mythic => 5,
    }
}

/// Highest rarity that a stage may drop.
pub open spec fn stage_cap_spec(stage: int) -> Rarity {
    if 1 <= stage <= 4 {
        Rarity::Common
    } else if 5 <= stage <= 9 {
        Rarity::Uncommon
    } else if 10 <= stage <= 19 {
        Rarity::Rare
    } else if 20 <= stage <= 39 {
        Rarity::Epic
    } else if 40 <= stage <= 49 {
        Rarity::Legendary
    } else {
        Rarity::Mythic
    }
}

/// The rarity lowered to the stage cap when it exceeds it.
pub open spec fn limited_spec(rarity: Rarity, stage: int) -> Rarity {
    if rank_spec(rarity) > rank_spec(stage_cap_spec(stage)) {
        stage_cap_spec(stage)
    } else {
        rarity
    }
}

/// Item template code that a rarity drops.
pub open spec fn code_spec(rarity: Rarity) -> Seq<char> {
    match rarity {
        Rarity::Common => "forest_sword_common"@,
        Rarity::Uncommon => "forest_bow_uncommon"@,
        Rarity::Rare => "forest_staff_rare"@,
        Rarity::Epic => "forest_armor_epic"@,
        Rarity::Legendary => "forest_relic_legendary"@,
        Rarity::Mythic => "forest_crown_mythic"@,
    }
}

impl Rarity {
    /// Item template code that this rarity drops.
    pub fn code(self) -> (r: &'static str)
        ensures
            r@ == code_spec(self),
    {
        match self {
            Rarity::Common => "forest_sword_common",
            Rarity::Uncommon => "forest_bow_uncommon",
            Rarity::Rare => "forest_staff_rare",
            Rarity::Epic => "forest_armor_epic",
            Rarity::Legendary => "forest_relic_legendary",
            Rarity::Mythic => "forest_crown_mythic",
        }
    }

    /// This rarity, lowered to the highest rarity the stage allows.
    pub fn limited_to_stage(self, stage: u16) -> (r: Rarity)
        ensures
            r == limited_spec(self, stage as int),
    {
        let maximum = if 1 <= stage && stage <= 4 {
            Rarity::Common
        } else if 5 <= stage && stage <= 9 {
            Rarity::Uncommon
        } else if 10 <= stage && stage <= 19 {
            Rarity::Rare
        } else if 20 <= stage && stage <= 39 {
            Rarity::Epic
        } else if 40 <= stage && stage <= 49 {
            Rarity::Legendary
        } else {
            Rarity::Mythic
        };
        if rank(self) > rank(maximum) {
            maximum
        } else {
            self
        }
    }
}

/// Position of a rarity in the order Common < ... < Mythic.
pub fn rank(rarity: Rarity) -> (r: u8)
    ensures
        r as int == rank_spec(rarity),
{
    match rarity {
        Rarity::Common => 0,
        Rarity::Uncommon => 1,
        Rarity::Rare => 2,
        Rarity::Epic => 3,
        Rarity::Legendary => 4,
        Rarity::Mythic => 5,
    }
}

/// The stage cap never raises a rarity, never lets it exceed the cap, and applying it
/// twice changes nothing.
pub proof fn lemma_stage_cap(rarity: Rarity, stage: int)
    ensures
        rank_spec(limited_spec(rarity, stage)) <= rank_spec(rarity),
        rank_spec(limited_spec(rarity, stage)) <= rank_spec(stage_cap_spec(stage)),
        limited_spec(limited_spec(rarity, stage), stage) == limited_spec(rarity, stage),
        rank_spec(rarity) <= rank_spec(stage_cap_spec(stage)) ==> limited_spec(rarity, stage)
            == rarity,
{
}

/// One million, the scale of the probabilities given in millionths.
pub open spec fn ppm() -> int {
    1_000_000
}

/// 2^53, the scale of a uniform draw in [0, 1).
pub open spec fn two_pow_53() -> int {
    9_007_199_254_740_992
}

/// The drop bonus in millionths: luck (clamped to [0, 1]) weighs 12%, the difficulty
/// bonus is clamped to [0, 0.5], and the sum is capped at 0.55.
pub open spec fn bonus_ppm_spec(luck_ppm: int, difficulty_ppm: int) -> int {
    let luck = if luck_ppm < 0 {
        0
    } else if luck_ppm > 1_000_000 {
        1_000_000
    } else {
        luck_ppm
    };
    let difficulty = if difficulty_ppm < 0 {
        0
    } else if difficulty_ppm > 500_000 {
        500_000
    } else {
        difficulty_ppm
    };
    let bonus = luck * 12 / 100 + difficulty;
    if bonus > 550_000 {
        550_000
    } else {
        bonus
    }
}

/// The roll `draw / 2^53 + bonus / 10^6`, capped at 0.999999, scaled by 10^6 * 2^53.
pub open spec fn roll_scaled(draw: int, bonus_ppm: int) -> int {
    let roll = draw * ppm() + bonus_ppm * two_pow_53();
    if roll > 999_999 * two_pow_53() {
        999_999 * two_pow_53()
    } else {
        roll
    }
}

/// Rarity of a scaled roll: below 0.60 Common, 0.82 Uncommon, 0.94 Rare, 0.985 Epic,
/// 0.998 Legendary, and Mythic above.
pub open spec fn rarity_of_roll(roll: int) -> Rarity {
    if roll < 600_000 * two_pow_53() {
        Rarity::Common
    } else if roll < 820_000 * two_pow_53() {
        Rarity::Uncommon
    } else if roll < 940_000 * two_pow_53() {
        Rarity::Rare
    } else if roll < 985_000 * two_pow_53() {
        Rarity::Epic
    } else if roll < 998_000 * two_pow_53() {
        Rarity::Legendary
    } else {
        Rarity::Mythic
    }
}

/// Rarity drawn from the first 64-bit word of the generator: its top 53 bits make a
/// uniform number in [0, 1), which the luck and difficulty bonuses shift upwards.
pub open spec fn rarity_from_word_spec(word: u64, luck_ppm: int, difficulty_ppm: int) -> Rarity {
    rarity_of_roll(roll_scaled(word as int / 2048, bonus_ppm_spec(luck_ppm, difficulty_ppm)))
}

/// The first 64-bit word of a ChaCha8 generator seeded with `seed` through
/// `SeedableRng::seed_from_u64`.
pub uninterp spec fn chacha8_first_word(seed: u64) -> u64;

/// Calls `rand_chacha::ChaCha8Rng::seed_from_u64(seed)` and then `RngCore::next_u64`
/// once. The generator is deterministic, so the word is a function of the seed; what it
/// is for a given seed is not stated.
#[verifier::external_body]
fn first_chacha8_word(seed: u64) -> (r: u64)
    ensures
        r == chacha8_first_word(seed),
{
    let mut generator = ChaCha8Rng::seed_from_u64(seed);
    generator.next_u64()
}

fn clamp_i64(value: i64, low: i64, high: i64) -> (r: i64)
    requires
        low <= high,
    ensures
        r == if value < low {
            low
        } else if value > high {
            high
        } else {
            value
        },
{
    if value < low {
        low
    } else if value > high {
        high
    } else {
        value
    }
}

/// Drop bonus in millionths from luck and difficulty bonus in millionths.
pub fn bonus_ppm(luck_ppm: i64, difficulty_ppm: i64) -> (r: i64)
    ensures
        r as int == bonus_ppm_spec(luck_ppm as int, difficulty_ppm as int),
        0 <= r <= 550_000,
{
    let luck = clamp_i64(luck_ppm, 0, 1_000_000);
    let difficulty = clamp_i64(difficulty_ppm, 0, 500_000);
    let bonus = luck * 12 / 100 + difficulty;
    if bonus > 550_000 {
        550_000
    } else {
        bonus
    }
}

/// Rarity for a generator word, luck and difficulty bonus (both in millionths).
pub fn rarity_from_word(word: u64, luck_ppm: i64, difficulty_ppm: i64) -> (r: Rarity)
    ensures
        r == rarity_from_word_spec(word, luck_ppm as int, difficulty_ppm as int),
{
    let draw = (word / 2048) as u128;
    let bonus = bonus_ppm(luck_ppm, difficulty_ppm) as u128;
    let scale: u128 = 9_007_199_254_740_992;
    assert(draw < 9_007_199_254_740_992);
    let mut roll = draw * 1_000_000 + bonus * scale;
    if roll > 999_999 * scale {
        roll = 999_999 * scale;
    }
    if roll < 600_000 * scale {
        Rarity::Common
    } else if roll < 820_000 * scale {
        Rarity::Uncommon
    } else if roll < 940_000 * scale {
        Rarity::Rare
    } else if roll < 985_000 * scale {
        Rarity::Epic
    } else if roll < 998_000 * scale {
        Rarity::Legendary
    } else {
        Rarity::Mythic
    }
}

/// Reproducible drop roll: the same seed, luck and difficulty bonus always give the
/// same rarity. Luck and difficulty bonus are in millionths.
pub fn roll_rarity(seed: u64, luck_ppm: i64, difficulty_ppm: i64) -> (r: Rarity)
    ensures
        r == rarity_from_word_spec(chacha8_first_word(seed), luck_ppm as int, difficulty_ppm as int),
{
    let word = first_chacha8_word(seed);
    rarity_from_word(word, luck_ppm, difficulty_ppm)
}

/// A larger luck or difficulty bonus never lowers the rarity drawn from the same seed.
pub proof fn lemma_bonus_never_downgrades(
    word: u64,
    luck_low: int,
    difficulty_low: int,
    luck_high: int,
    difficulty_high: int,
)
    requires
        luck_low <= luck_high,
        difficulty_low <= difficulty_high,
    ensures
        rank_spec(rarity_from_word_spec(word, luck_low, difficulty_low)) <= rank_spec(
            rarity_from_word_spec(word, luck_high, difficulty_high),
        ),
{
    let b1 = bonus_ppm_spec(luck_low, difficulty_low);
    let b2 = bonus_ppm_spec(luck_high, difficulty_high);
    let l1 = if luck_low < 0 { 0 } else if luck_low > 1_000_000 { 1_000_000 } else { luck_low };
    let l2 = if luck_high < 0 { 0 } else if luck_high > 1_000_000 { 1_000_000 } else { luck_high };
    assert(l1 * 12 / 100 <= l2 * 12 / 100) by (nonlinear_arith)
        requires
            l1 <= l2,
    ;
    assert(b1 <= b2);
    let d = word as int / 2048;
    assert(roll_scaled(d, b1) <= roll_scaled(d, b2)) by (nonlinear_arith)
        requires
            b1 <= b2,
            roll_scaled(d, b1) == (if d * ppm() + b1 * two_pow_53() > 999_999 * two_pow_53() {
                999_999 * two_pow_53()
            } else {
                d * ppm() + b1 * two_pow_53()
            }),
            roll_scaled(d, b2) == (if d * ppm() + b2 * two_pow_53() > 999_999 * two_pow_53() {
                999_999 * two_pow_53()
            } else {
                d * ppm() + b2 * two_pow_53()
            }),
            ppm() == 1_000_000,
            two_pow_53() == 9_007_199_254_740_992,
    ;
}


/// The stage cap, range by range: stages 1 to 4 drop at most Common, 5 to 9 at most
/// Uncommon, 10 to 19 at most Rare, 20 to 39 at most Epic, 40 to 49 at most Legendary,
/// and every other stage anything. A rarity within the cap is kept; a rarer one becomes
/// the cap.
pub proof fn lemma_stage_cap_table(rarity: Rarity, stage: int)
    ensures
        1 <= stage <= 4 ==> limited_spec(rarity, stage) == Rarity::Common,
        5 <= stage <= 9 ==> limited_spec(rarity, stage) == (if rarity == Rarity::Common {
            Rarity::Common
        } else {
            Rarity::Uncommon
        }),
        10 <= stage <= 19 ==> limited_spec(rarity, stage) == (if rarity == Rarity::Common
            || rarity == Rarity::Uncommon || rarity == Rarity::Rare {
            rarity
        } else {
            Rarity::Rare
        }),
        20 <= stage <= 39 ==> limited_spec(rarity, stage) == (if rarity == Rarity::Legendary
            || rarity == Rarity::Mythic {
            Rarity::Epic
        } else {
            rarity
        }),
        40 <= stage <= 49 ==> limited_spec(rarity, stage) == (if rarity == Rarity::Mythic {
            Rarity::Legendary
        } else {
            rarity
        }),
        !(1 <= stage <= 49) ==> limited_spec(rarity, stage) == rarity,
{
}

} // verus!
