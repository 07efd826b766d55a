use vstd::prelude::*;
use vstd::string::*;

use crate::error::AppError;

verus! {

/// VIP points needed for a VIP level (0 to 15).
pub open spec fn threshold_spec(level: int) -> i64 {
    if level == 0 {
        0
    } else if level == 1 {
        100
    } else if level == 2 {
        300
    } else if level == 3 {
        600
    } else if level == 4 {
        1000
    } else if level == 5 {
        1500
    } else if level == 6 {
        2500
    } else if level == 7 {
        4000
    } else if level == 8 {
        6000
    } else if level == 9 {
        8500
    } else if level == 10 {
        12000
    } else if level == 11 {
        16000
    } else if level == 12 {
        21000
    } else if level == 13 {
        27000
    } else if level == 14 {
        34000
    } else if level == 15 {
        42000
    } else {
        i64::MAX
    }
}

/// VIP points needed for a VIP level; levels above 15 cannot be reached.
pub fn vip_threshold(level: i16) -> (r: i64)
    ensures
        r == threshold_spec(level as int),
{
    if level == 0 {
        0
    } else if level == 1 {
        100
    } else if level == 2 {
        300
    } else if level == 3 {
        600
    } else if level == 4 {
        1000
    } else if level == 5 {
        1500
    } else if level == 6 {
        2500
    } else if level == 7 {
        4000
    } else if level == 8 {
        6000
    } else if level == 9 {
        8500
    } else if level == 10 {
        12000
    } else if level == 11 {
        16000
    } else if level == 12 {
        21000
    } else if level == 13 {
        27000
    } else if level == 14 {
        34000
    } else if level == 15 {
        42000
    } else {
        i64::MAX
    }
}

/// VIP level of a points total: the highest level whose threshold the points reach.
pub open spec fn level_spec(points: int) -> i16 {
    if points >= 42000 {
        15
    } else if points >= 34000 {
        14
    } else if points >= 27000 {
        13
    } else if points >= 21000 {
        12
    } else if points >= 16000 {
        11
    } else if points >= 12000 {
        10
    } else if points >= 8500 {
        9
    } else if points >= 6000 {
        8
    } else if points >= 4000 {
        7
    } else if points >= 2500 {
        6
    } else if points >= 1500 {
        5
    } else if points >= 1000 {
        4
    } else if points >= 600 {
        3
    } else if points >= 300 {
        2
    } else if points >= 100 {
        1
    } else {
        0
    }
}

/// VIP level of a points total, at most 15.
pub fn level_for_points(points: i64) -> (r: i16)
    ensures
        r == level_spec(points as int),
{
    let mut level: i16 = 0;
    let mut i: i16 = 0;
    while i < 16
        invariant
            0 <= i <= 16,
            0 <= level <= 15,
            forall|j: int| 0 <= j < i ==> threshold_spec(j) <= points,
            i > 0 ==> level == i - 1,
            i == 0 ==> level == 0,
        ensures
            (i == 16 || threshold_spec(i as int) > points),
            forall|j: int| 0 <= j < i ==> threshold_spec(j) <= points,
            i > 0 ==> level == i - 1,
            i == 0 ==> level == 0,
        decreases 16 - i,
    {
        if points >= vip_threshold(i) {
            level = i;
        } else {
            break;
        }
        i = i + 1;
    }
    proof {
        if i > 0 {
            assert(threshold_spec(i - 1) <= points);
            lemma_level_of_bracket(points as int, (i - 1) as int);
        }
    }
    level
}

proof fn lemma_level_of_bracket(points: int, k: int)
    requires
        0 <= k <= 15,
        threshold_spec(k) <= points,
        k == 15 || points < threshold_spec(k + 1),
    ensures
        level_spec(points) == k,
{
}

/// The thresholds grow with the level.
pub proof fn lemma_thresholds_increase()
    ensures
        forall|a: int, b: int| 0 <= a < b <= 15 ==> threshold_spec(a) < threshold_spec(b),
{
}

/// A points total reaches the threshold of its level and, below the top level, falls
/// short of the next one; more points never give a lower level.
pub proof fn lemma_level_brackets(points: int, more: int)
    requires
        0 <= points <= more,
    ensures
        threshold_spec(level_spec(points) as int) <= points,
        level_spec(points) < 15 ==> points < threshold_spec(level_spec(points) + 1),
        level_spec(points) <= level_spec(more),
{
}

/// Benefits listed for a VIP level.
pub open spec fn benefits_spec(level: int) -> Seq<Seq<char>> {
    if level == 0 {
        seq!["Base do jogo"@]
    } else if level == 1 {
        seq!["+5% EXP"@, "+1 Dungeon/dia"@, "chat colorido"@]
    } else if level == 2 {
        seq!["+10% EXP"@, "+5% Drop Rate"@, "Auto-loot"@]
    } else if level == 3 {
        seq!["+15% EXP"@, "+10% Drop"@, "+1 Arena/dia"@]
    } else if level == 4 {
        seq!["+20% EXP"@, "+15% Drop"@, "Skip animações"@]
    } else if level == 5 {
        seq!["+25% EXP"@, "+20% Drop"@, "+1 Expedição"@, "Frame Prata"@]
    } else if level == 6 {
        seq!["+30% EXP"@, "+25% Drop"@, "+2 Arena"@]
    } else if level == 7 {
        seq!["+40% EXP"@, "+30% Drop"@, "+2 Dungeon"@, "VIP Chat"@]
    } else if level == 8 {
        seq!["+50% EXP"@, "+35% Drop"@, "+1 Pet slot"@, "Frame Ouro"@]
    } else if level == 9 {
        seq!["+60% EXP"@, "+40% Drop"@, "+3 Arena"@]
    } else if level == 10 {
        seq!["+75% EXP"@, "+50% Drop"@, "Título Patrono"@, "Aura Prata"@]
    } else if level == 11 {
        seq!["+90% EXP"@, "+60% Drop"@, "+3 Dungeon"@]
    } else if level == 12 {
        seq!["+100% EXP"@, "+75% Drop"@, "Asas VIP Douradas"@]
    } else if level == 13 {
        seq!["+120% EXP"@, "+90% Drop"@, "Montaria Dragão Dourado"@]
    } else if level == 14 {
        seq!["+150% EXP"@, "+100% Drop"@, "+5 Arena"@, "Trail VIP"@]
    } else if level == 15 {
        seq!["+200% EXP"@, "+150% Drop"@, "Skin Imperador Dourado"@, "Crown VIP"@, "Aura Dourada"@, "Offline 24h"@]
    } else {
        seq![]
    }
}

/// Benefits listed for a VIP level; none outside 0..=15.
pub fn benefits_for(level: i16) -> (r: Vec<&'static str>)
    ensures
        r@.map_values(|s: &'static str| s@) == benefits_spec(level as int),
{
    let r: Vec<&'static str> = 
    if level == 0 {
        vec!["Base do jogo"]
    } else if level == 1 {
        vec!["+5% EXP", "+1 Dungeon/dia", "chat colorido"]
    } else if level == 2 {
        vec!["+10% EXP", "+5% Drop Rate", "Auto-loot"]
    } else if level == 3 {
        vec!["+15% EXP", "+10% Drop", "+1 Arena/dia"]
    } else if level == 4 {
        vec!["+20% EXP", "+15% Drop", "Skip animações"]
    } else if level == 5 {
        vec!["+25% EXP", "+20% Drop", "+1 Expedição", "Frame Prata"]
    } else if level == 6 {
        vec!["+30% EXP", "+25% Drop", "+2 Arena"]
    } else if level == 7 {
        vec!["+40% EXP", "+30% Drop", "+2 Dungeon", "VIP Chat"]
    } else if level == 8 {
        vec!["+50% EXP", "+35% Drop", "+1 Pet slot", "Frame Ouro"]
    } else if level == 9 {
        vec!["+60% EXP", "+40% Drop", "+3 Arena"]
    } else if level == 10 {
        vec!["+75% EXP", "+50% Drop", "Título Patrono", "Aura Prata"]
    } else if level == 11 {
        vec!["+90% EXP", "+60% Drop", "+3 Dungeon"]
    } else if level == 12 {
        vec!["+100% EXP", "+75% Drop", "Asas VIP Douradas"]
    } else if level == 13 {
        vec!["+120% EXP", "+90% Drop", "Montaria Dragão Dourado"]
    } else if level == 14 {
        vec!["+150% EXP", "+100% Drop", "+5 Arena", "Trail VIP"]
    } else if level == 15 {
        vec!["+200% EXP", "+150% Drop", "Skin Imperador Dourado", "Crown VIP", "Aura Dourada", "Offline 24h"]
    } else {
        Vec::new()
    };
    assert(r@.map_values(|s: &'static str| s@) =~= benefits_spec(level as int));
    r
}

/// Benefits of every VIP level from 0 up to `level`, by level.
pub fn benefits_upto(level: i16) -> (r: Vec<Vec<&'static str>>)
    requires
        level < i16::MAX,
    ensures
        r@.len() == if level >= 0 {
            level + 1
        } else {
            0
        },
        forall|l: int|
            0 <= l < r@.len() ==> (#[trigger] r@[l])@.map_values(|s: &'static str| s@)
                == benefits_spec(l),
{
    let mut out: Vec<Vec<&'static str>> = Vec::new();
    let mut l: i16 = 0;
    while l <= level
        invariant
            0 <= l,
            level < i16::MAX,
            l <= level + 1 || level < 0,
            level < 0 ==> l == 0,
            out@.len() == l,
            forall|k: int|
                0 <= k < out@.len() ==> (#[trigger] out@[k])@.map_values(|s: &'static str| s@)
                    == benefits_spec(k),
        decreases level - l + 1,
    {
        out.push(benefits_for(l));
        l = l + 1;
    }
    out
}

/// Points needed for the next VIP level, or `None` at the top level.
pub fn next_level_points(level: i16) -> (r: Option<i64>)
    requires
        level >= 0,
    ensures
        r == if level < 15 {
            Some(threshold_spec(level + 1))
        } else {
            None::<i64>
        },
{
    if level < 15 {
        Some(vip_threshold(level + 1))
    } else {
        None
    }
}

/// VIP level shown to a player: the level of their points, or the stored level if it
/// is higher.
pub fn effective_level(stored_level: i16, points: i64) -> (r: i16)
    ensures
        r == if level_spec(points as int) >= stored_level {
            level_spec(points as int)
        } else {
            stored_level
        },
{
    let computed = level_for_points(points);
    if computed >= stored_level {
        computed
    } else {
        stored_level
    }
}

/// Checks a VIP points grant: 1 to 100000 points.
pub fn check_grant(points: i64) -> (r: Result<(), AppError>)
    ensures
        r is Ok <==> 1 <= points <= 100_000,
        r matches Err(e) ==> (e matches AppError::Validation(m) && m@
            == "points deve estar entre 1 e 100000"@),
{
    if points <= 0 || points > 100_000 {
        return Err(AppError::Validation(String::from_str("points deve estar entre 1 e 100000")));
    }
    Ok(())
}

} // verus!
