use vstd::prelude::*;

use crate::text::text_eq;

verus! {

/// The highest level a character can reach.
pub const MAX_LEVEL: i16 = 200;

/// Experience needed to leave `level`.
pub open spec fn required_spec(level: int) -> int {
    level * 100
}

/// `a + b` for `b >= 0`, saturating at `i64::MAX`.
pub open spec fn saturating_add_spec(a: int, b: int) -> int {
    if a + b > i64::MAX {
        i64::MAX as int
    } else {
        a + b
    }
}

/// Experience gained, with negative grants ignored.
pub open spec fn grant_spec(gained: int) -> int {
    if gained > 0 {
        gained
    } else {
        0
    }
}

/// Spends experience on level-ups while the character is below the cap.
pub open spec fn climb(level: int, experience: int) -> (int, int)
    decreases 200 - level,
{
    if level < 200 && experience >= required_spec(level) {
        climb(level + 1, experience - required_spec(level))
    } else {
        (level, experience)
    }
}

/// Level and remaining experience after gaining `gained` experience.
pub open spec fn add_experience_spec(level: int, experience: int, gained: int) -> (int, int) {
    climb(level, saturating_add_spec(experience, grant_spec(gained)))
}

/// Experience that levels below zero give back while climbing to level zero.
pub open spec fn below_zero_refund(level: int) -> int {
    if level < 0 {
        50 * (-level) * (-level + 1)
    } else {
        0
    }
}

/// Total experience spent to reach `level` from level one.
pub open spec fn cumulative_experience(level: int) -> int {
    50 * level * (level - 1)
}

/// Adds experience to a character and applies every level-up it pays for, up to
/// level 200. Leftover experience is kept.
pub fn add_experience(start_level: i16, start_experience: i64, gained: i64) -> (r: (i16, i64))
    requires
        saturating_add_spec(start_experience as int, grant_spec(gained as int))
            + below_zero_refund(start_level as int) <= i64::MAX,
    ensures
        (r.0 as int, r.1 as int) == add_experience_spec(
            start_level as int,
            start_experience as int,
            gained as int,
        ),
{
    let mut level = start_level;
    let experience = start_experience;
    let grant: i64 = if gained > 0 {
        gained
    } else {
        0
    };
    let mut experience: i64 = if experience > i64::MAX - grant {
        i64::MAX
    } else {
        experience + grant
    };
    let ghost target = add_experience_spec(
        start_level as int,
        start_experience as int,
        gained as int,
    );
    assert(climb(level as int, experience as int) == target);
    while level < 200
        invariant
            climb(level as int, experience as int) == target,
            experience as int + below_zero_refund(level as int) <= i64::MAX,
        ensures
            climb(level as int, experience as int) == (level as int, experience as int),
            climb(level as int, experience as int) == target,
        decreases 200 - level,
    {
        let required = (level as i64) * 100;
        if experience < required {
            break;
        }
        proof {
            if level < 0 {
                assert(below_zero_refund(level as int) == below_zero_refund(level + 1) + (-level)
                    * 100) by (nonlinear_arith)
                    requires
                        level < 0,
                        below_zero_refund(level as int) == 50 * (-level) * (-level + 1),
                        below_zero_refund(level + 1) == if level + 1 < 0 {
                            50 * (-(level + 1)) * (-(level + 1) + 1)
                        } else {
                            0
                        },
                ;
            }
        }
        experience = experience - required;
        level = level + 1;
    }
    (level, experience)
}

/// Climbing never lowers the level nor passes the cap, spends exactly the experience
/// that the levels cost, and stops only at the cap or when the next level is
/// unaffordable.
pub proof fn lemma_climb(level: int, experience: int)
    ensures
        climb(level, experience).0 >= level,
        level <= 200 ==> climb(level, experience).0 <= 200,
        level >= 1 ==> cumulative_experience(climb(level, experience).0) + climb(
            level,
            experience,
        ).1 == cumulative_experience(level) + experience,
        climb(level, experience).0 == 200 || climb(level, experience).0 > 200 || climb(
            level,
            experience,
        ).1 < required_spec(climb(level, experience).0),
    decreases 200 - level,
{
    if level < 200 && experience >= required_spec(level) {
        lemma_climb(level + 1, experience - required_spec(level));
        assert(cumulative_experience(level + 1) == cumulative_experience(level) + level * 100)
            by (nonlinear_arith);
    }
}

/// Experience is conserved: for a character at level one or above whose experience
/// does not saturate, the experience spent on levels plus the experience left equals
/// the experience before plus the grant. The result never passes level 200, and below
/// level 200 the leftover experience is less than the next level's cost.
pub proof fn lemma_experience_is_conserved(level: i16, experience: i64, gained: i64)
    requires
        1 <= level <= 200,
        experience as int + grant_spec(gained as int) <= i64::MAX,
    ensures
        ({
            let r = add_experience_spec(level as int, experience as int, gained as int);
            &&& level <= r.0 <= 200
            &&& cumulative_experience(r.0) + r.1 == cumulative_experience(level as int)
                + experience + grant_spec(gained as int)
            &&& r.0 < 200 ==> r.1 < required_spec(r.0)
        }),
{
    lemma_climb(level as int, experience as int + grant_spec(gained as int));
}

/// Base hit points, attack and defense of a class at level one.
pub open spec fn class_base_spec(class: Seq<char>) -> (int, int, int) {
    if class == "warrior"@ {
        (1500, 110, 180)
    } else if class == "archer"@ {
        (800, 180, 70)
    } else {
        (1000, 150, 100)
    }
}

/// `num / den` rounded to the nearest integer, halves away from zero (`f64::round`).
pub open spec fn round_div(num: int, den: int) -> int
    recommends
        den > 0,
{
    if num >= 0 {
        (2 * num + den) / (2 * den)
    } else {
        -((2 * (-num) + den) / (2 * den))
    }
}

/// Levels gained since level one (`level.saturating_sub(1)`).
pub open spec fn steps_spec(level: int) -> int {
    if level == i16::MIN {
        i16::MIN as int
    } else {
        level - 1
    }
}

/// Base stats of a class at a level: hit points grow 8% per level, attack and
/// defense 5% per level, each rounded to the nearest integer.
pub open spec fn base_for_class_spec(class: Seq<char>, level: int) -> (int, int, int) {
    let (hp, attack, defense) = class_base_spec(class);
    let steps = steps_spec(level);
    (
        round_div(hp * (100 + 8 * steps), 100),
        round_div(attack * (100 + 5 * steps), 100),
        round_div(defense * (100 + 5 * steps), 100),
    )
}

fn round_div_exec(num: i64, den: i64) -> (r: i64)
    requires
        den > 0,
        -1_000_000_000_000 <= num <= 1_000_000_000_000,
        den <= 1_000_000,
    ensures
        r == round_div(num as int, den as int),
{
    if num >= 0 {
        (2 * num + den) / (2 * den)
    } else {
        -((2 * (-num) + den) / (2 * den))
    }
}

/// Base hit points, attack and defense of a class at a level.
pub fn base_for_class(class: &str, level: i16) -> (r: (i64, i64, i64))
    ensures
        (r.0 as int, r.1 as int, r.2 as int) == base_for_class_spec(class@, level as int),
{
    let (hp, attack, defense): (i64, i64, i64) = if text_eq(class, "warrior") {
        (1500, 110, 180)
    } else if text_eq(class, "archer") {
        (800, 180, 70)
    } else {
        (1000, 150, 100)
    };
    let steps: i64 = if level == i16::MIN {
        i16::MIN as i64
    } else {
        (level - 1) as i64
    };
    assert(-32768 <= steps <= 32767);
    assert(-1_000_000_000 <= hp * (100 + 8 * steps) <= 1_000_000_000) by (nonlinear_arith)
        requires
            0 < hp <= 1500,
            -32768 <= steps <= 32767,
    ;
    assert(-1_000_000_000 <= attack * (100 + 5 * steps) <= 1_000_000_000) by (nonlinear_arith)
        requires
            0 < attack <= 180,
            -32768 <= steps <= 32767,
    ;
    assert(-1_000_000_000 <= defense * (100 + 5 * steps) <= 1_000_000_000) by (nonlinear_arith)
        requires
            0 < defense <= 180,
            -32768 <= steps <= 32767,
    ;
    (
        round_div_exec(hp * (100 + 8 * steps), 100),
        round_div_exec(attack * (100 + 5 * steps), 100),
        round_div_exec(defense * (100 + 5 * steps), 100),
    )
}

/// Base stats never fall as a character levels up from level one.
pub proof fn lemma_base_stats_grow_with_level(class: Seq<char>, low: int, high: int)
    requires
        1 <= low <= high <= i16::MAX,
    ensures
        base_for_class_spec(class, low).0 <= base_for_class_spec(class, high).0,
        base_for_class_spec(class, low).1 <= base_for_class_spec(class, high).1,
        base_for_class_spec(class, low).2 <= base_for_class_spec(class, high).2,
{
    let (hp, attack, defense) = class_base_spec(class);
    assert(hp > 0 && attack > 0 && defense > 0);
    lemma_round_monotone(hp * (100 + 8 * (low - 1)), hp * (100 + 8 * (high - 1)));
    lemma_round_monotone(attack * (100 + 5 * (low - 1)), attack * (100 + 5 * (high - 1)));
    lemma_round_monotone(defense * (100 + 5 * (low - 1)), defense * (100 + 5 * (high - 1)));
    assert(hp * (100 + 8 * (low - 1)) <= hp * (100 + 8 * (high - 1)) && 0 <= hp * (100 + 8 * (low
        - 1))) by (nonlinear_arith)
        requires
            hp > 0,
            1 <= low <= high,
    ;
    assert(attack * (100 + 5 * (low - 1)) <= attack * (100 + 5 * (high - 1)) && 0 <= attack * (100
        + 5 * (low - 1))) by (nonlinear_arith)
        requires
            attack > 0,
            1 <= low <= high,
    ;
    assert(defense * (100 + 5 * (low - 1)) <= defense * (100 + 5 * (high - 1)) && 0 <= defense * (
    100 + 5 * (low - 1))) by (nonlinear_arith)
        requires
            defense > 0,
            1 <= low <= high,
    ;
}

proof fn lemma_round_monotone(a: int, b: int)
    ensures
        0 <= a <= b ==> round_div(a, 100) <= round_div(b, 100),
{
    if 0 <= a <= b {
        assert((2 * a + 100) / 200 <= (2 * b + 100) / 200) by (nonlinear_arith)
            requires
                0 <= a <= b,
        ;
    }
}

/// Base-stat multiplier of an awakening, in percent: none before the first, then
/// +50%, +100%, +200%, +400% and +800%.
pub open spec fn awakening_percent_spec(awakening: int) -> int {
    if awakening <= 0 {
        100
    } else if awakening == 1 {
        150
    } else if awakening == 2 {
        200
    } else if awakening == 3 {
        300
    } else if awakening == 4 {
        500
    } else {
        900
    }
}

/// Base stats of an awakened character, which starts again at level one: the class's
/// level-one stats times the awakening's multiplier, rounded to the nearest integer.
pub open spec fn awakened_base_spec(class: Seq<char>, awakening: int) -> (int, int, int) {
    let (hp, attack, defense) = base_for_class_spec(class, 1);
    let p = awakening_percent_spec(awakening);
    (round_div(hp * p, 100), round_div(attack * p, 100), round_div(defense * p, 100))
}

/// Base-stat multiplier of an awakening, in percent.
pub fn awakening_percent(awakening: i16) -> (r: i64)
    requires
        0 <= awakening <= 5,
    ensures
        r == awakening_percent_spec(awakening as int),
{
    if awakening == 0 {
        100
    } else if awakening == 1 {
        150
    } else if awakening == 2 {
        200
    } else if awakening == 3 {
        300
    } else if awakening == 4 {
        500
    } else {
        900
    }
}

/// Base hit points, attack and defense of a character of a class after its
/// `awakening`-th awakening, back at level one.
pub fn awakened_base_stats(class: &str, awakening: i16) -> (r: (i64, i64, i64))
    requires
        0 <= awakening <= 5,
    ensures
        (r.0 as int, r.1 as int, r.2 as int) == awakened_base_spec(class@, awakening as int),
{
    let (hp, attack, defense) = base_for_class(class, 1);
    let p = awakening_percent(awakening);
    assert(class_base_spec(class@).0 == hp && class_base_spec(class@).1 == attack
        && class_base_spec(class@).2 == defense) by {
        let (h, a, d) = class_base_spec(class@);
        assert(round_div(h * 100, 100) == h) by (nonlinear_arith)
            requires
                h > 0,
        ;
        assert(round_div(a * 100, 100) == a) by (nonlinear_arith)
            requires
                a > 0,
        ;
        assert(round_div(d * 100, 100) == d) by (nonlinear_arith)
            requires
                d > 0,
        ;
    }
    assert(0 < hp * p <= 1_500_000 && 0 < attack * p <= 1_500_000 && 0 < defense * p <= 1_500_000)
        by (nonlinear_arith)
        requires
            0 < hp <= 1500,
            0 < attack <= 1500,
            0 < defense <= 1500,
            100 <= p <= 900,
    ;
    (round_div_exec(hp * p, 100), round_div_exec(attack * p, 100), round_div_exec(defense * p, 100))
}

/// Each awakening raises the base stats at least as much as the one before: a later
/// awakening never gives lower base stats.
pub proof fn lemma_awakening_never_lowers(class: Seq<char>, earlier: int, later: int)
    requires
        0 <= earlier <= later <= 5,
    ensures
        awakened_base_spec(class, earlier).0 <= awakened_base_spec(class, later).0,
        awakened_base_spec(class, earlier).1 <= awakened_base_spec(class, later).1,
        awakened_base_spec(class, earlier).2 <= awakened_base_spec(class, later).2,
{
    let (hp, attack, defense) = base_for_class_spec(class, 1);
    let p = awakening_percent_spec(earlier);
    let q = awakening_percent_spec(later);
    assert(p <= q);
    let (h, a, d) = class_base_spec(class);
    assert(hp == h && attack == a && defense == d) by {
        assert(round_div(h * 100, 100) == h) by (nonlinear_arith)
            requires
                h > 0,
        ;
        assert(round_div(a * 100, 100) == a) by (nonlinear_arith)
            requires
                a > 0,
        ;
        assert(round_div(d * 100, 100) == d) by (nonlinear_arith)
            requires
                d > 0,
        ;
    }
    assert(0 <= hp * p <= hp * q && 0 <= attack * p <= attack * q && 0 <= defense * p <= defense
        * q) by (nonlinear_arith)
        requires
            hp > 0,
            attack > 0,
            defense > 0,
            0 < p <= q,
    ;
    lemma_round_monotone(hp * p, hp * q);
    lemma_round_monotone(attack * p, attack * q);
    lemma_round_monotone(defense * p, defense * q);
}

} // verus!
