use vstd::prelude::*;

use crate::progression::round_div;
use crate::text::text_eq;

verus! {

/// Adjustments that the formation and class synergies give a squad member: hit points,
/// attack and defense in percent of the current value, and a critical-rate bonus in
/// hundredths (capped at a rate of one by the caller).
#[derive(Clone, Copy, Debug, PartialEq, Eq, Structural)]
pub struct MemberBonus {
    pub hp_percent: i64,
    pub attack_percent: i64,
    pub defense_percent: i64,
    pub crit_rate_hundredths: i64,
}

/// Number of members of a class.
pub open spec fn class_count(classes: Seq<String>, class: Seq<char>, n: int) -> int
    decreases n,
{
    if n <= 0 {
        0
    } else {
        class_count(classes, class, n - 1) + if classes[n - 1]@ == class {
            1int
        } else {
            0int
        }
    }
}

/// Bonus of one member: the vanguard formation raises the defense of slots 1 to 3 by
/// 15%, the assault formation raises the attack of slots 4 and up by 15%, two or more
/// warriors raise every warrior's hit points by 10%, and two or more archers raise every
/// archer's critical rate by 0.05.
pub open spec fn member_bonus_spec(
    formation: Seq<char>,
    slot: i16,
    class: Seq<char>,
    warriors: int,
    archers: int,
) -> MemberBonus {
    MemberBonus {
        defense_percent: if formation == "vanguard"@ && slot <= 3 {
            115
        } else {
            100
        },
        attack_percent: if formation == "assault"@ && slot >= 4 {
            115
        } else {
            100
        },
        hp_percent: if class == "warrior"@ && warriors >= 2 {
            110
        } else {
            100
        },
        crit_rate_hundredths: if class == "archer"@ && archers >= 2 {
            5
        } else {
            0
        },
    }
}

fn count_class(classes: &Vec<String>, class: &str) -> (r: usize)
    ensures
        r as int == class_count(classes@, class@, classes@.len() as int),
{
    let mut count: usize = 0;
    let mut i: usize = 0;
    while i < classes.len()
        invariant
            i <= classes.len(),
            count as int == class_count(classes@, class@, i as int),
            count <= i,
        decreases classes.len() - i,
    {
        if text_eq(classes[i].as_str(), class) {
            count = count + 1;
        }
        i = i + 1;
    }
    count
}

/// Bonuses of every member of a squad, from the members' slots and classes and the
/// squad's formation.
pub fn formation_and_synergy(slots: &Vec<i16>, classes: &Vec<String>, formation: &str) -> (r: Vec<
    MemberBonus,
>)
    requires
        slots@.len() == classes@.len(),
    ensures
        r@.len() == slots@.len(),
        forall|i: int|
            0 <= i < r@.len() ==> #[trigger] r@[i] == member_bonus_spec(
                formation@,
                slots@[i],
                classes@[i]@,
                class_count(classes@, "warrior"@, classes@.len() as int),
                class_count(classes@, "archer"@, classes@.len() as int),
            ),
{
    let warriors = count_class(classes, "warrior");
    let archers = count_class(classes, "archer");
    let vanguard = text_eq(formation, "vanguard");
    let assault = text_eq(formation, "assault");
    let mut out: Vec<MemberBonus> = Vec::new();
    let mut i: usize = 0;
    while i < slots.len()
        invariant
            i <= slots.len(),
            slots@.len() == classes@.len(),
            out@.len() == i,
            vanguard == (formation@ == "vanguard"@),
            assault == (formation@ == "assault"@),
            warriors as int == class_count(classes@, "warrior"@, classes@.len() as int),
            archers as int == class_count(classes@, "archer"@, classes@.len() as int),
            forall|j: int|
                0 <= j < i ==> #[trigger] out@[j] == member_bonus_spec(
                    formation@,
                    slots@[j],
                    classes@[j]@,
                    warriors as int,
                    archers as int,
                ),
        decreases slots.len() - i,
    {
        let slot = slots[i];
        let class = classes[i].as_str();
        let is_warrior = text_eq(class, "warrior");
        let is_archer = text_eq(class, "archer");
        let bonus = MemberBonus {
            defense_percent: if vanguard && slot <= 3 {
                115
            } else {
                100
            },
            attack_percent: if assault && slot >= 4 {
                115
            } else {
                100
            },
            hp_percent: if is_warrior && warriors >= 2 {
                110
            } else {
                100
            },
            crit_rate_hundredths: if is_archer && archers >= 2 {
                5
            } else {
                0
            },
        };
        out.push(bonus);
        i = i + 1;
    }
    out
}

/// `value` scaled by `percent` percent, rounded to the nearest integer with halves away
/// from zero.
pub fn scale_percent(value: i64, percent: i64) -> (r: i64)
    requires
        0 <= percent <= 1000,
        -1_000_000_000_000_000 <= value <= 1_000_000_000_000_000,
    ensures
        r as int == round_div(value * percent, 100),
{
    assert(-1_000_000_000_000_000_000 <= value * percent <= 1_000_000_000_000_000_000) by (
    nonlinear_arith)
        requires
            0 <= percent <= 1000,
            -1_000_000_000_000_000 <= value <= 1_000_000_000_000_000,
    ;
    let num = (value as i128) * (percent as i128);
    let q = if num >= 0 {
        (2 * num + 100) / 200
    } else {
        -((2 * (-num) + 100) / 200)
    };
    q as i64
}


proof fn lemma_count_one(classes: Seq<String>, class: Seq<char>, n: int, i: int)
    requires
        0 <= i < n,
        classes[i]@ == class,
    ensures
        class_count(classes, class, n) >= 1,
    decreases n,
{
    if n - 1 > i {
        lemma_count_one(classes, class, n - 1, i);
    } else {
        lemma_count_nonnegative(classes, class, n - 1);
    }
}

proof fn lemma_count_nonnegative(classes: Seq<String>, class: Seq<char>, n: int)
    ensures
        class_count(classes, class, n) >= 0,
    decreases n,
{
    if n > 0 {
        lemma_count_nonnegative(classes, class, n - 1);
    }
}

proof fn lemma_count_two(classes: Seq<String>, class: Seq<char>, n: int, i: int, j: int)
    requires
        0 <= i < j < n,
        classes[i]@ == class,
        classes[j]@ == class,
    ensures
        class_count(classes, class, n) >= 2,
    decreases n,
{
    if n - 1 > j {
        lemma_count_two(classes, class, n - 1, i, j);
    } else {
        lemma_count_one(classes, class, n - 1, i);
    }
}

/// Class synergies in a squad's bonuses: as soon as the squad holds two warriors (or
/// more), every warrior gets +10% hit points, and as soon as it holds two archers (or
/// more), every archer gets +0.05 critical rate; a member of another class gets neither,
/// and a warrior or archer without a second one of its class gets nothing from synergy.
/// The vanguard formation gives slots 1 to 3 +15% defense and the assault formation
/// gives slots 4 and up +15% attack.
pub proof fn lemma_synergy_bonuses(
    slots: Seq<i16>,
    classes: Seq<String>,
    formation: Seq<char>,
    i: int,
)
    requires
        slots.len() == classes.len(),
        0 <= i < classes.len(),
    ensures
        ({
            let n = classes.len() as int;
            let b = member_bonus_spec(
                formation,
                slots[i],
                classes[i]@,
                class_count(classes, "warrior"@, n),
                class_count(classes, "archer"@, n),
            );
            &&& classes[i]@ == "warrior"@ && (exists|j: int|
                0 <= j < n && j != i && #[trigger] classes[j]@ == "warrior"@) ==> b.hp_percent
                == 110
            &&& classes[i]@ == "warrior"@ && (forall|j: int|
                0 <= j < n && j != i ==> #[trigger] classes[j]@ != "warrior"@) ==> b.hp_percent
                == 100
            &&& classes[i]@ != "warrior"@ ==> b.hp_percent == 100
            &&& classes[i]@ == "archer"@ && (exists|j: int|
                0 <= j < n && j != i && #[trigger] classes[j]@ == "archer"@) ==> b.crit_rate_hundredths
                == 5
            &&& classes[i]@ == "archer"@ && (forall|j: int|
                0 <= j < n && j != i ==> #[trigger] classes[j]@ != "archer"@) ==> b.crit_rate_hundredths
                == 0
            &&& classes[i]@ != "archer"@ ==> b.crit_rate_hundredths == 0
            &&& b.defense_percent == if formation == "vanguard"@ && slots[i] <= 3 {
                115int
            } else {
                100int
            }
            &&& b.attack_percent == if formation == "assault"@ && slots[i] >= 4 {
                115int
            } else {
                100int
            }
        }),
{
    let n = classes.len() as int;
    if classes[i]@ == "warrior"@ {
        if exists|j: int| 0 <= j < n && j != i && #[trigger] classes[j]@ == "warrior"@ {
            let j = choose|j: int| 0 <= j < n && j != i && #[trigger] classes[j]@ == "warrior"@;
            if i < j {
                lemma_count_two(classes, "warrior"@, n, i, j);
            } else {
                lemma_count_two(classes, "warrior"@, n, j, i);
            }
        }
        if forall|j: int| 0 <= j < n && j != i ==> #[trigger] classes[j]@ != "warrior"@ {
            lemma_count_only(classes, "warrior"@, n, i);
        }
    }
    if classes[i]@ == "archer"@ {
        if exists|j: int| 0 <= j < n && j != i && #[trigger] classes[j]@ == "archer"@ {
            let j = choose|j: int| 0 <= j < n && j != i && #[trigger] classes[j]@ == "archer"@;
            if i < j {
                lemma_count_two(classes, "archer"@, n, i, j);
            } else {
                lemma_count_two(classes, "archer"@, n, j, i);
            }
        }
        if forall|j: int| 0 <= j < n && j != i ==> #[trigger] classes[j]@ != "archer"@ {
            lemma_count_only(classes, "archer"@, n, i);
        }
    }
}

proof fn lemma_count_only(classes: Seq<String>, class: Seq<char>, n: int, i: int)
    requires
        0 <= i < n <= classes.len(),
        forall|j: int| 0 <= j < n && j != i ==> #[trigger] classes[j]@ != class,
    ensures
        class_count(classes, class, n) <= 1,
    decreases n,
{
    if n - 1 > i {
        lemma_count_only(classes, class, n - 1, i);
    } else {
        lemma_count_none(classes, class, n - 1);
    }
}

proof fn lemma_count_none(classes: Seq<String>, class: Seq<char>, n: int)
    requires
        n <= classes.len(),
        forall|j: int| 0 <= j < n ==> #[trigger] classes[j]@ != class,
    ensures
        class_count(classes, class, n) == 0,
    decreases n,
{
    if n > 0 {
        lemma_count_none(classes, class, n - 1);
    }
}

} // verus!
