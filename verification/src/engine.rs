use vstd::prelude::*;

verus! {

/// Outcome of a duel.
#[derive(Clone, Copy, Debug, PartialEq, Eq, Structural)]
pub struct CombatResult {
    pub victory: bool,
    pub duration_ms: u64,
    pub damage_dealt: i64,
    pub damage_taken: i64,
    pub turns: u32,
}

/// Side that strikes on a turn.
#[derive(Clone, Copy, Debug, PartialEq, Eq, Structural)]
pub enum Striker {
    Attacker,
    Defender,
}

/// State of a duel between an attacker and a defender. Each side strikes on its own
/// clock: the side whose next strike time comes first strikes, the attacker winning
/// ties, and the duel ends when a side falls or the time limit passes.
#[derive(Clone, Copy, Debug, PartialEq, Eq, Structural)]
pub struct Duel {
    pub attacker_hp: i64,
    pub defender_hp: i64,
    pub attacker_interval: u64,
    pub defender_interval: u64,
    pub next_attacker: u64,
    pub next_defender: u64,
    pub dealt: i64,
    pub taken: i64,
    pub turns: u32,
    pub elapsed: u64,
    pub max_ms: u64,
}

/// `a + b`, saturating at `u64::MAX`.
pub open spec fn saturating_add_u64(a: u64, b: u64) -> u64 {
    if a + b > u64::MAX {
        u64::MAX
    } else {
        (a + b) as u64
    }
}

/// Whether the duel still runs: both sides stand and the time limit is not reached.
pub open spec fn duel_running(d: Duel) -> bool {
    d.attacker_hp > 0 && d.defender_hp > 0 && d.elapsed < d.max_ms
}

/// The clock moved to the earlier of the two next strikes.
pub open spec fn advance_spec(d: Duel) -> Duel {
    Duel {
        elapsed: if d.next_attacker <= d.next_defender {
            d.next_attacker
        } else {
            d.next_defender
        },
        ..d
    }
}

/// Who strikes next, if the duel goes on.
pub open spec fn striker_spec(d: Duel) -> Option<Striker> {
    if !duel_running(d) || advance_spec(d).elapsed > d.max_ms {
        None
    } else if d.next_attacker <= d.next_defender {
        Some(Striker::Attacker)
    } else {
        Some(Striker::Defender)
    }
}

/// The duel after `striker` deals `damage`.
pub open spec fn strike_spec(d: Duel, striker: Striker, damage: i64) -> Duel {
    match striker {
        Striker::Attacker => Duel {
            defender_hp: (d.defender_hp - damage) as i64,
            dealt: (d.dealt + damage) as i64,
            next_attacker: saturating_add_u64(d.next_attacker, d.attacker_interval),
            turns: (d.turns + 1) as u32,
            ..d
        },
        Striker::Defender => Duel {
            attacker_hp: (d.attacker_hp - damage) as i64,
            taken: (d.taken + damage) as i64,
            next_defender: saturating_add_u64(d.next_defender, d.defender_interval),
            turns: (d.turns + 1) as u32,
            ..d
        },
    }
}

/// The result reported for a duel state.
pub open spec fn result_spec(d: Duel) -> CombatResult {
    CombatResult {
        victory: d.defender_hp <= 0 && d.attacker_hp > 0,
        duration_ms: if d.elapsed <= d.max_ms {
            d.elapsed
        } else {
            d.max_ms
        },
        damage_dealt: d.dealt,
        damage_taken: d.taken,
        turns: d.turns,
    }
}

impl Duel {
    /// A duel about to start; hit points below one count as one.
    pub fn new(
        attacker_hp: i64,
        defender_hp: i64,
        attacker_interval: u64,
        defender_interval: u64,
        max_ms: u64,
    ) -> (r: Duel)
        ensures
            r.attacker_hp == if attacker_hp > 1 {
                attacker_hp
            } else {
                1
            },
            r.defender_hp == if defender_hp > 1 {
                defender_hp
            } else {
                1
            },
            r.attacker_interval == attacker_interval,
            r.defender_interval == defender_interval,
            r.next_attacker == attacker_interval,
            r.next_defender == defender_interval,
            r.dealt == 0,
            r.taken == 0,
            r.turns == 0,
            r.elapsed == 0,
            r.max_ms == max_ms,
    {
        Duel {
            attacker_hp: if attacker_hp > 1 {
                attacker_hp
            } else {
                1
            },
            defender_hp: if defender_hp > 1 {
                defender_hp
            } else {
                1
            },
            attacker_interval,
            defender_interval,
            next_attacker: attacker_interval,
            next_defender: defender_interval,
            dealt: 0,
            taken: 0,
            turns: 0,
            elapsed: 0,
            max_ms,
        }
    }

    /// Starts the next turn: moves the clock to the next strike and says who strikes,
    /// or `None` when the duel is over.
    pub fn next_striker(&mut self) -> (r: Option<Striker>)
        ensures
            r == striker_spec(*old(self)),
            *final(self) == if duel_running(*old(self)) {
                advance_spec(*old(self))
            } else {
                *old(self)
            },
    {
        if !(self.attacker_hp > 0 && self.defender_hp > 0 && self.elapsed < self.max_ms) {
            return None;
        }
        self.elapsed = if self.next_attacker <= self.next_defender {
            self.next_attacker
        } else {
            self.next_defender
        };
        if self.elapsed > self.max_ms {
            return None;
        }
        if self.next_attacker <= self.next_defender {
            Some(Striker::Attacker)
        } else {
            Some(Striker::Defender)
        }
    }

    /// Applies the damage of one strike and schedules the striker's next strike.
    pub fn apply_strike(&mut self, striker: Striker, damage: i64)
        requires
            old(self).attacker_hp > 0,
            old(self).defender_hp > 0,
            damage >= 0,
            old(self).turns < u32::MAX,
            striker == Striker::Attacker ==> old(self).dealt + damage <= i64::MAX,
            striker == Striker::Defender ==> old(self).taken + damage <= i64::MAX,
        ensures
            *final(self) == strike_spec(*old(self), striker, damage),
    {
        match striker {
            Striker::Attacker => {
                self.defender_hp = self.defender_hp - damage;
                self.dealt = self.dealt + damage;
                self.next_attacker = if self.next_attacker > u64::MAX - self.attacker_interval {
                    u64::MAX
                } else {
                    self.next_attacker + self.attacker_interval
                };
            },
            Striker::Defender => {
                self.attacker_hp = self.attacker_hp - damage;
                self.taken = self.taken + damage;
                self.next_defender = if self.next_defender > u64::MAX - self.defender_interval {
                    u64::MAX
                } else {
                    self.next_defender + self.defender_interval
                };
            },
        }
        self.turns = self.turns + 1;
    }

    /// The outcome: victory when the defender fell while the attacker still stands; the
    /// duration never exceeds the time limit.
    pub fn result(&self) -> (r: CombatResult)
        ensures
            r == result_spec(*self),
    {
        CombatResult {
            victory: self.defender_hp <= 0 && self.attacker_hp > 0,
            duration_ms: if self.elapsed <= self.max_ms {
                self.elapsed
            } else {
                self.max_ms
            },
            damage_dealt: self.dealt,
            damage_taken: self.taken,
            turns: self.turns,
        }
    }
}

/// Damage accounting: every strike moves exactly the damage it deals from the target's
/// hit points to the striker's tally, adds one turn, never moves either clock backwards,
/// and moves the striker's clock forward whenever its interval is positive.
pub proof fn lemma_strike_accounting(d: Duel, striker: Striker, damage: i64)
    requires
        d.attacker_hp > 0,
        d.defender_hp > 0,
        damage >= 0,
        d.turns < u32::MAX,
        d.dealt + damage <= i64::MAX,
        d.taken + damage <= i64::MAX,
    ensures
        ({
            let e = strike_spec(d, striker, damage);
            &&& e.defender_hp + e.dealt == d.defender_hp + d.dealt
            &&& e.attacker_hp + e.taken == d.attacker_hp + d.taken
            &&& e.dealt + e.taken == d.dealt + d.taken + damage
            &&& e.turns == d.turns + 1
            &&& e.next_attacker >= d.next_attacker
            &&& e.next_defender >= d.next_defender
            &&& (striker == Striker::Attacker && d.attacker_interval > 0 && d.next_attacker
                < u64::MAX) ==> e.next_attacker > d.next_attacker
            &&& (striker == Striker::Defender && d.defender_interval > 0 && d.next_defender
                < u64::MAX) ==> e.next_defender > d.next_defender
        }),
{
}

/// The reported duration never exceeds the time limit, and a victory means the
/// defender fell while the attacker still stands.
pub proof fn lemma_result_bounds(d: Duel)
    ensures
        result_spec(d).duration_ms <= d.max_ms,
        result_spec(d).victory ==> d.defender_hp <= 0 && d.attacker_hp > 0,
{
}

} // verus!
