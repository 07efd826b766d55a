use vstd::prelude::*;

verus! {

/// Report of one wave of a stage: the running totals of damage when it ended and
/// whether the squad cleared it.
#[derive(Debug)]
pub struct WaveEvent {
    pub sequence: u32,
    pub wave: u8,
    pub enemy: String,
    pub enemy_count: u8,
    pub squad_damage: i64,
    pub squad_damage_taken: i64,
    pub cleared: bool,
}

impl WaveEvent {
    /// A copy of the event.
    pub fn duplicate(&self) -> (r: WaveEvent)
        ensures
            r == *self,
    {
        WaveEvent {
            sequence: self.sequence,
            wave: self.wave,
            enemy: self.enemy.clone(),
            enemy_count: self.enemy_count,
            squad_damage: self.squad_damage,
            squad_damage_taken: self.squad_damage_taken,
            cleared: self.cleared,
        }
    }
}

/// Outcome of a stage of three waves.
#[derive(Debug)]
pub struct WaveResult {
    pub victory: bool,
    pub duration_ms: u64,
    pub damage_dealt: i64,
    pub damage_taken: i64,
    pub events: Vec<WaveEvent>,
}

/// A stage in progress: the squad's remaining hit points, the current wave's remaining
/// enemy hit points and round, the damage totals and the reports of finished waves.
pub struct StageRun {
    pub alive_hp: Vec<i64>,
    pub enemy_hp: i64,
    pub round: u32,
    pub total_dealt: i64,
    pub total_taken: i64,
    pub duration_ms: u64,
    pub events: Vec<WaveEvent>,
}

/// The highest number of rounds a wave lasts.
pub open spec fn round_limit() -> int {
    120
}

/// Whether any squad member still stands.
pub open spec fn any_alive_spec(alive: Seq<i64>) -> bool {
    exists|i: int| 0 <= i < alive.len() && #[trigger] alive[i] > 0
}

/// Indices, in order, of the members among the first `n` that still stand.
pub open spec fn living_upto(alive: Seq<i64>, n: int) -> Seq<usize>
    decreases n,
{
    if n <= 0 {
        seq![]
    } else if alive[n - 1] > 0 {
        living_upto(alive, n - 1).push((n - 1) as usize)
    } else {
        living_upto(alive, n - 1)
    }
}

/// Whether a stage's reports make a victory: three waves, all cleared.
pub open spec fn victory_spec(events: Seq<WaveEvent>) -> bool {
    events.len() == 3 && forall|k: int| 0 <= k < events.len() ==> (#[trigger] events[k]).cleared
}

impl StageRun {
    /// Invariant of a stage in progress: at most three reports, numbered by wave, every
    /// report but the last cleared, and damage totals that never go down.
    pub open spec fn wf(&self) -> bool {
        &&& self.events.len() <= 3
        &&& self.total_dealt >= 0
        &&& self.total_taken >= 0
        &&& forall|k: int|
            0 <= k < self.events.len() ==> {
                &&& (#[trigger] self.events[k]).wave == k + 1
                &&& self.events[k].sequence == k + 1
                &&& 0 <= self.events[k].squad_damage <= self.total_dealt
                &&& 0 <= self.events[k].squad_damage_taken <= self.total_taken
            }
        &&& forall|k: int| 0 <= k < self.events.len() - 1 ==> (#[trigger] self.events[k]).cleared
        &&& forall|j: int, k: int|
            0 <= j < k < self.events.len() ==> (#[trigger] self.events[j]).squad_damage
                <= (#[trigger] self.events[k]).squad_damage && self.events[j].squad_damage_taken
                <= self.events[k].squad_damage_taken
    }

    /// A stage about to start; squad hit points below one count as one.
    pub fn new(squad_hp: &Vec<i64>) -> (r: StageRun)
        ensures
            r.wf(),
            r.alive_hp@.len() == squad_hp@.len(),
            forall|i: int|
                0 <= i < squad_hp@.len() ==> #[trigger] r.alive_hp@[i] == if squad_hp@[i] > 1 {
                    squad_hp@[i]
                } else {
                    1
                },
            r.enemy_hp == 0,
            r.round == 0,
            r.total_dealt == 0,
            r.total_taken == 0,
            r.duration_ms == 0,
            r.events@.len() == 0,
    {
        let mut alive: Vec<i64> = Vec::new();
        let mut i: usize = 0;
        while i < squad_hp.len()
            invariant
                i <= squad_hp.len(),
                alive@.len() == i,
                forall|j: int|
                    0 <= j < i ==> #[trigger] alive@[j] == if squad_hp@[j] > 1 {
                        squad_hp@[j]
                    } else {
                        1
                    },
            decreases squad_hp.len() - i,
        {
            let hp = squad_hp[i];
            alive.push(
                if hp > 1 {
                    hp
                } else {
                    1
                },
            );
            i = i + 1;
        }
        StageRun {
            alive_hp: alive,
            enemy_hp: 0,
            round: 0,
            total_dealt: 0,
            total_taken: 0,
            duration_ms: 0,
            events: Vec::new(),
        }
    }

    /// Starts a wave of `count` enemies of `hp` hit points each.
    pub fn begin_wave(&mut self, hp: i64, count: u8)
        requires
            i64::MIN <= hp * count <= i64::MAX,
        ensures
            final(self).enemy_hp == hp * count,
            final(self).round == 0,
            final(self).alive_hp == old(self).alive_hp,
            final(self).total_dealt == old(self).total_dealt,
            final(self).total_taken == old(self).total_taken,
            final(self).duration_ms == old(self).duration_ms,
            final(self).events == old(self).events,
    {
        self.enemy_hp = hp * (count as i64);
        self.round = 0;
    }

    /// Whether any squad member still stands.
    pub fn any_alive(&self) -> (r: bool)
        ensures
            r == any_alive_spec(self.alive_hp@),
    {
        let mut i: usize = 0;
        while i < self.alive_hp.len()
            invariant
                i <= self.alive_hp.len(),
                forall|j: int| 0 <= j < i ==> !(#[trigger] self.alive_hp@[j] > 0),
            decreases self.alive_hp.len() - i,
        {
            if self.alive_hp[i] > 0 {
                return true;
            }
            i = i + 1;
        }
        false
    }

    /// Whether the wave goes on for another round: enemies and squad members remain and
    /// the round limit is not reached.
    pub fn round_continues(&self) -> (r: bool)
        ensures
            r == (self.enemy_hp > 0 && any_alive_spec(self.alive_hp@) && self.round
                < round_limit()),
    {
        self.enemy_hp > 0 && self.any_alive() && self.round < 120
    }

    /// Whether member `i` strikes this round: it stands and enemies remain.
    pub fn can_strike(&self, i: usize) -> (r: bool)
        requires
            i < self.alive_hp@.len(),
        ensures
            r == (self.alive_hp@[i as int] > 0 && self.enemy_hp > 0),
    {
        self.alive_hp[i] > 0 && self.enemy_hp > 0
    }

    /// A squad member's strike on the enemies.
    pub fn squad_hit(&mut self, damage: i64)
        requires
            old(self).wf(),
            old(self).enemy_hp > 0,
            damage >= 0,
            old(self).total_dealt + damage <= i64::MAX,
        ensures
            final(self).wf(),
            final(self).enemy_hp == old(self).enemy_hp - damage,
            final(self).total_dealt == old(self).total_dealt + damage,
            final(self).alive_hp == old(self).alive_hp,
            final(self).round == old(self).round,
            final(self).total_taken == old(self).total_taken,
            final(self).duration_ms == old(self).duration_ms,
            final(self).events == old(self).events,
    {
        self.enemy_hp = self.enemy_hp - damage;
        self.total_dealt = self.total_dealt + damage;
    }

    /// Indices, in order, of the squad members that still stand.
    pub fn living(&self) -> (r: Vec<usize>)
        ensures
            r@ == living_upto(self.alive_hp@, self.alive_hp@.len() as int),
    {
        let mut out: Vec<usize> = Vec::new();
        let mut i: usize = 0;
        while i < self.alive_hp.len()
            invariant
                i <= self.alive_hp.len(),
                out@ == living_upto(self.alive_hp@, i as int),
            decreases self.alive_hp.len() - i,
        {
            if self.alive_hp[i] > 0 {
                out.push(i);
            }
            i = i + 1;
        }
        out
    }

    /// The enemies' strike on squad member `target`.
    pub fn enemy_hit(&mut self, target: usize, damage: i64)
        requires
            old(self).wf(),
            target < old(self).alive_hp@.len(),
            old(self).alive_hp@[target as int] > 0,
            damage >= 0,
            old(self).total_taken + damage <= i64::MAX,
        ensures
            final(self).wf(),
            final(self).alive_hp@ == old(self).alive_hp@.update(
                target as int,
                (old(self).alive_hp@[target as int] - damage) as i64,
            ),
            final(self).total_taken == old(self).total_taken + damage,
            final(self).enemy_hp == old(self).enemy_hp,
            final(self).round == old(self).round,
            final(self).total_dealt == old(self).total_dealt,
            final(self).duration_ms == old(self).duration_ms,
            final(self).events == old(self).events,
    {
        let hp = self.alive_hp[target];
        self.alive_hp.set(target, hp - damage);
        self.total_taken = self.total_taken + damage;
    }

    /// Ends a round, which lasts one second.
    pub fn end_round(&mut self)
        requires
            old(self).duration_ms + 1000 <= u64::MAX,
            old(self).round < u32::MAX,
        ensures
            final(self).duration_ms == old(self).duration_ms + 1000,
            final(self).round == old(self).round + 1,
            final(self).alive_hp == old(self).alive_hp,
            final(self).enemy_hp == old(self).enemy_hp,
            final(self).total_dealt == old(self).total_dealt,
            final(self).total_taken == old(self).total_taken,
            final(self).events == old(self).events,
    {
        self.duration_ms = self.duration_ms + 1000;
        self.round = self.round + 1;
    }

    /// Closes the current wave with its report and says whether it was cleared. A wave
    /// is only fought after every earlier wave was cleared.
    pub fn finish_wave(&mut self, enemy: &str, count: u8) -> (cleared: bool)
        requires
            old(self).wf(),
            old(self).events@.len() < 3,
            forall|k: int|
                0 <= k < old(self).events@.len() ==> (#[trigger] old(self).events@[k]).cleared,
        ensures
            final(self).wf(),
            cleared == (old(self).enemy_hp <= 0),
            final(self).events@ == old(self).events@.push(
                WaveEvent {
                    sequence: (old(self).events@.len() + 1) as u32,
                    wave: (old(self).events@.len() + 1) as u8,
                    enemy: final(self).events@.last().enemy,
                    enemy_count: count,
                    squad_damage: old(self).total_dealt,
                    squad_damage_taken: old(self).total_taken,
                    cleared,
                },
            ),
            final(self).events@.last().enemy@ == enemy@,
            final(self).alive_hp == old(self).alive_hp,
            final(self).enemy_hp == old(self).enemy_hp,
            final(self).round == old(self).round,
            final(self).total_dealt == old(self).total_dealt,
            final(self).total_taken == old(self).total_taken,
            final(self).duration_ms == old(self).duration_ms,
    {
        let cleared = self.enemy_hp <= 0;
        let number = self.events.len() + 1;
        let event = WaveEvent {
            sequence: number as u32,
            wave: number as u8,
            enemy: String::from_str(enemy),
            enemy_count: count,
            squad_damage: self.total_dealt,
            squad_damage_taken: self.total_taken,
            cleared,
        };
        self.events.push(event);
        cleared
    }

    /// The stage's outcome: a victory when three waves were cleared.
    pub fn finish(self) -> (r: WaveResult)
        requires
            self.wf(),
        ensures
            r.victory == victory_spec(self.events@),
            r.duration_ms == self.duration_ms,
            r.damage_dealt == self.total_dealt,
            r.damage_taken == self.total_taken,
            r.events == self.events,
    {
        let victory = self.events.len() == 3 && self.events[2].cleared;
        proof {
            if self.events@.len() == 3 && self.events@[2].cleared {
                assert forall|k: int| 0 <= k < self.events@.len() implies (
                #[trigger] self.events@[k]).cleared by {
                    if k < 2 {
                        assert(self.events@[k].cleared);
                    }
                }
            }
        }
        WaveResult {
            victory,
            duration_ms: self.duration_ms,
            damage_dealt: self.total_dealt,
            damage_taken: self.total_taken,
            events: self.events,
        }
    }
}

/// In a stage in progress, a victory is exactly three reports whose last wave was
/// cleared, and the reported running totals of damage never go down from wave to wave.
pub proof fn lemma_victory_is_three_clears(run: StageRun)
    requires
        run.wf(),
    ensures
        victory_spec(run.events@) <==> (run.events@.len() == 3 && run.events@[2].cleared),
        forall|j: int, k: int|
            0 <= j < k < run.events@.len() ==> (#[trigger] run.events@[j]).squad_damage
                <= (#[trigger] run.events@[k]).squad_damage,
{
    if run.events@.len() == 3 && run.events@[2].cleared {
        assert forall|k: int| 0 <= k < run.events@.len() implies (
        #[trigger] run.events@[k]).cleared by {
            if k < 2 {
                assert(run.events@[k].cleared);
            }
        }
    }
}

/// Every index that `living` reports stands, and every standing member is reported.
pub proof fn lemma_living_members(alive: Seq<i64>, n: int)
    requires
        0 <= n <= alive.len(),
        alive.len() <= usize::MAX,
    ensures
        forall|k: int|
            0 <= k < living_upto(alive, n).len() ==> (#[trigger] living_upto(alive, n)[k]) < n
                && alive[living_upto(alive, n)[k] as int] > 0,
        forall|i: int| 0 <= i < n && alive[i] > 0 ==> living_upto(alive, n).contains(i as usize),
        living_upto(alive, n).len() <= n,
    decreases n,
{
    if n > 0 {
        lemma_living_members(alive, n - 1);
        let prev = living_upto(alive, n - 1);
        let cur = living_upto(alive, n);
        assert forall|k: int| 0 <= k < cur.len() implies (#[trigger] cur[k]) < n && alive[cur[k] as int]
            > 0 by {
            if k < prev.len() {
                assert(cur[k] == prev[k]);
            }
        }
        if alive[n - 1] > 0 {
            assert forall|i: int| 0 <= i < n && alive[i] > 0 implies living_upto(
                alive,
                n,
            ).contains(i as usize) by {
                if i < n - 1 {
                    let k = choose|k: int| 0 <= k < prev.len() && prev[k] == i as usize;
                    assert(living_upto(alive, n)[k] == i as usize);
                } else {
                    assert(living_upto(alive, n)[prev.len() as int] == i as usize);
                }
            }
        }
    }
}


/// A wave goes on for as long as enemies and a standing member remain, for every round
/// below 120; at round 120 it stops, and it stops as soon as the enemies fall or the
/// whole squad does. This is what `round_continues` returns.
pub proof fn lemma_wave_lasts_up_to_120_rounds(run: StageRun)
    ensures
        run.enemy_hp > 0 && (exists|i: int| 0 <= i < run.alive_hp@.len() && run.alive_hp@[i] > 0)
            && run.round < 120 ==> (run.enemy_hp > 0 && any_alive_spec(run.alive_hp@) && run.round
            < round_limit()),
        run.round >= 120 ==> !(run.enemy_hp > 0 && any_alive_spec(run.alive_hp@) && run.round
            < round_limit()),
        run.enemy_hp <= 0 ==> !(run.enemy_hp > 0 && any_alive_spec(run.alive_hp@) && run.round
            < round_limit()),
        (forall|i: int| 0 <= i < run.alive_hp@.len() ==> run.alive_hp@[i] <= 0) ==> !(run.enemy_hp
            > 0 && any_alive_spec(run.alive_hp@) && run.round < round_limit()),
{
}

} // verus!
