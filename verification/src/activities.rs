use vstd::prelude::*;
use vstd::string::*;

use rand::seq::SliceRandom;
use rand::Rng;

use crate::error::{rejected_with, AppError};
use crate::text::{append_decimal, decimal_spec, lowercase_spec, text_eq, to_lowercase, with_decimal};

verus! {

// ---------------------------------------------------------------- dungeons

/// Kind of a daily dungeon.
#[derive(Clone, Copy, Debug, PartialEq, Eq, Structural)]
pub enum DungeonType {
    Exp,
    Material,
    Equipment,
}

/// The dungeon kind a lowercase name denotes.
pub open spec fn dungeon_type_spec(name: Seq<char>) -> Option<DungeonType> {
    if name == "exp"@ {
        Some(DungeonType::Exp)
    } else if name == "material"@ {
        Some(DungeonType::Material)
    } else if name == "equipment"@ {
        Some(DungeonType::Equipment)
    } else {
        None
    }
}

impl DungeonType {
    /// Stored name of the kind.
    pub fn code(&self) -> (r: &'static str)
        ensures
            r@ == match *self {
                DungeonType::Exp => "exp"@,
                DungeonType::Material => "material"@,
                DungeonType::Equipment => "equipment"@,
            },
    {
        match self {
            DungeonType::Exp => "exp",
            DungeonType::Material => "material",
            DungeonType::Equipment => "equipment",
        }
    }

    /// The kind a lowercase name denotes.
    pub fn from_lowercase(name: &str) -> (r: Option<DungeonType>)
        ensures
            r == dungeon_type_spec(name@),
    {
        if text_eq(name, "exp") {
            Some(DungeonType::Exp)
        } else if text_eq(name, "material") {
            Some(DungeonType::Material)
        } else if text_eq(name, "equipment") {
            Some(DungeonType::Equipment)
        } else {
            None
        }
    }
}

/// Reads a requested dungeon kind, ignoring case.
pub fn parse_dungeon_type(requested: &str) -> (r: Result<DungeonType, AppError>)
    ensures
        r is Ok <==> dungeon_type_spec(lowercase_spec(requested@)) is Some,
        r matches Ok(kind) ==> dungeon_type_spec(lowercase_spec(requested@)) == Some(kind),
        dungeon_type_spec(lowercase_spec(requested@)) is None ==> rejected_with(r, "tipo deve ser exp, material ou equipment"@),
{
    let lowered = to_lowercase(requested);
    match DungeonType::from_lowercase(lowered.as_str()) {
        Some(kind) => Ok(kind),
        None => Err(
            AppError::Validation(String::from_str("tipo deve ser exp, material ou equipment")),
        ),
    }
}

/// Dungeon runs a player has per day: 10 from VIP 10, 6 from VIP 5, otherwise 3.
pub fn daily_dungeon_max(vip_level: i16) -> (r: i64)
    ensures
        r == if vip_level >= 10 {
            10i64
        } else if vip_level >= 5 {
            6i64
        } else {
            3i64
        },
{
    if vip_level >= 10 {
        10
    } else if vip_level >= 5 {
        6
    } else {
        3
    }
}

/// Dungeon runs left today, never below zero.
pub fn remaining_runs(max: i64, count: i64) -> (r: i64)
    requires
        i64::MIN <= max - count <= i64::MAX,
    ensures
        r == if max - count > 0 {
            max - count
        } else {
            0
        },
{
    if max - count > 0 {
        max - count
    } else {
        0
    }
}

/// Checks that a player has a dungeon run left today.
pub fn check_daily_runs(count: i64, max: i64) -> (r: Result<(), AppError>)
    ensures
        r is Ok <==> count < max,
        r matches Err(e) ==> (e matches AppError::Validation(m) && m@ == "limite diário "@
            + decimal_spec(max as int) + " atingido"@),
{
    if count >= max {
        let mut message = with_decimal("limite diário ", max);
        message.append(" atingido");
        return Err(AppError::Validation(message));
    }
    Ok(())
}

/// Gold, experience and cosmetic fragments of a dungeon run: the experience dungeon
/// pays 100 plus a twentieth of the leader's power (rounded toward zero).
pub open spec fn dungeon_rewards_spec(kind: DungeonType, power: i64) -> (i64, i64, i64) {
    match kind {
        DungeonType::Exp => (0, (100 + if power >= 0 {
            power / 20
        } else {
            -((-power) / 20)
        }) as i64, 0),
        DungeonType::Material => (0, 20, 5),
        DungeonType::Equipment => (50, 30, 2),
    }
}

/// Gold, experience and cosmetic fragments of a dungeon run.
pub fn dungeon_rewards(kind: DungeonType, power: i64) -> (r: (i64, i64, i64))
    ensures
        r == dungeon_rewards_spec(kind, power),
{
    match kind {
        DungeonType::Exp => (0, 100 + power / 20, 0),
        DungeonType::Material => (0, 20, 5),
        DungeonType::Equipment => (50, 30, 2),
    }
}

// ---------------------------------------------------------------- expeditions

/// Length of an expedition.
#[derive(Clone, Copy, Debug, PartialEq, Eq, Structural)]
pub enum ExpeditionDuration {
    H2,
    H4,
    H8,
    H12,
    H24,
}

/// The expedition length a name denotes.
pub open spec fn duration_spec(name: Seq<char>) -> Option<ExpeditionDuration> {
    if name == "2h"@ {
        Some(ExpeditionDuration::H2)
    } else if name == "4h"@ {
        Some(ExpeditionDuration::H4)
    } else if name == "8h"@ {
        Some(ExpeditionDuration::H8)
    } else if name == "12h"@ {
        Some(ExpeditionDuration::H12)
    } else if name == "24h"@ {
        Some(ExpeditionDuration::H24)
    } else {
        None
    }
}

/// Hours an expedition lasts.
pub open spec fn hours_spec(d: ExpeditionDuration) -> i64 {
    match d {
        ExpeditionDuration::H2 => 2,
        ExpeditionDuration::H4 => 4,
        ExpeditionDuration::H8 => 8,
        ExpeditionDuration::H12 => 12,
        ExpeditionDuration::H24 => 24,
    }
}

impl ExpeditionDuration {
    /// The length a name denotes.
    pub fn parse(name: &str) -> (r: Option<ExpeditionDuration>)
        ensures
            r == duration_spec(name@),
    {
        if text_eq(name, "2h") {
            Some(ExpeditionDuration::H2)
        } else if text_eq(name, "4h") {
            Some(ExpeditionDuration::H4)
        } else if text_eq(name, "8h") {
            Some(ExpeditionDuration::H8)
        } else if text_eq(name, "12h") {
            Some(ExpeditionDuration::H12)
        } else if text_eq(name, "24h") {
            Some(ExpeditionDuration::H24)
        } else {
            None
        }
    }

    /// Hours the expedition lasts.
    pub fn hours(&self) -> (r: i64)
        ensures
            r == hours_spec(*self),
    {
        match self {
            ExpeditionDuration::H2 => 2,
            ExpeditionDuration::H4 => 4,
            ExpeditionDuration::H8 => 8,
            ExpeditionDuration::H12 => 12,
            ExpeditionDuration::H24 => 24,
        }
    }
}

/// Checks a requested expedition length.
pub fn check_duration(name: &str) -> (r: Result<ExpeditionDuration, AppError>)
    ensures
        r is Ok <==> duration_spec(name@) is Some,
        r matches Ok(d) ==> duration_spec(name@) == Some(d),
        duration_spec(name@) is None ==> rejected_with(r, "duração deve ser 2h,4h,8h,12h,24h"@),
{
    match ExpeditionDuration::parse(name) {
        Some(d) => Ok(d),
        None => Err(AppError::Validation(String::from_str("duração deve ser 2h,4h,8h,12h,24h"))),
    }
}

/// Expedition slots of a VIP level: 8 from VIP 8, 5 from VIP 5, otherwise 3.
pub fn expedition_slots(vip_level: i16) -> (r: i64)
    ensures
        r == if vip_level >= 8 {
            8i64
        } else if vip_level >= 5 {
            5i64
        } else {
            3i64
        },
{
    if vip_level >= 8 {
        8
    } else if vip_level >= 5 {
        5
    } else {
        3
    }
}

/// Checks that a player has a free expedition slot.
pub fn check_expedition_slots(active: i64, max_slots: i64) -> (r: Result<(), AppError>)
    ensures
        r is Ok <==> active < max_slots,
        r matches Err(e) ==> (e matches AppError::Validation(m) && m@
            == "slots de expedição cheios ("@ + decimal_spec(max_slots as int) + ")"@),
{
    if active >= max_slots {
        let mut message = with_decimal("slots de expedição cheios (", max_slots);
        message.append(")");
        return Err(AppError::Validation(message));
    }
    Ok(())
}

/// Checks that a character may leave on an expedition, in order: it is not in the
/// active squad, a slot is free, and it is not already away.
pub fn check_expedition_start(in_squad: bool, active: i64, max_slots: i64, already: bool) -> (r:
    Result<(), AppError>)
    ensures
        r is Ok <==> (!in_squad && active < max_slots && !already),
        in_squad ==> rejected_with(r, "personagem no squad ativo não pode expedir"@),
        !in_squad && active >= max_slots ==> rejected_with(
            r,
            "slots de expedição cheios ("@ + decimal_spec(max_slots as int) + ")"@,
        ),
        !in_squad && active < max_slots && already ==> rejected_with(
            r,
            "personagem já em expedição"@,
        ),
{
    if in_squad {
        return Err(AppError::Validation(String::from_str("personagem no squad ativo não pode expedir")));
    }
    check_expedition_slots(active, max_slots)?;
    if already {
        return Err(AppError::Validation(String::from_str("personagem já em expedição")));
    }
    Ok(())
}

/// Gold and fragments of a finished expedition by its stored length; an unknown length
/// pays 100 gold and 3 fragments.
pub open spec fn expedition_rewards_spec(stored: Seq<char>) -> (i64, i32) {
    match duration_spec(stored) {
        Some(ExpeditionDuration::H2) => (80, 2),
        Some(ExpeditionDuration::H4) => (180, 4),
        Some(ExpeditionDuration::H8) => (400, 8),
        Some(ExpeditionDuration::H12) => (650, 12),
        Some(ExpeditionDuration::H24) => (1400, 25),
        None => (100, 3),
    }
}

/// Gold and fragments of a finished expedition.
pub fn expedition_rewards(stored: &str) -> (r: (i64, i32))
    ensures
        r == expedition_rewards_spec(stored@),
{
    match ExpeditionDuration::parse(stored) {
        Some(ExpeditionDuration::H2) => (80, 2),
        Some(ExpeditionDuration::H4) => (180, 4),
        Some(ExpeditionDuration::H8) => (400, 8),
        Some(ExpeditionDuration::H12) => (650, 12),
        Some(ExpeditionDuration::H24) => (1400, 25),
        None => (100, 3),
    }
}

/// Checks that an expedition can be collected: not collected yet, and finished.
pub fn check_expedition_claim(claimed: bool, finished: bool) -> (r: Result<(), AppError>)
    ensures
        r is Ok <==> (!claimed && finished),
        claimed ==> rejected_with(r, "já coletado"@),
        !claimed && !finished ==> rejected_with(r, "expedição ainda em andamento"@),
{
    if claimed {
        return Err(AppError::Validation(String::from_str("já coletado")));
    }
    if !finished {
        return Err(AppError::Validation(String::from_str("expedição ainda em andamento")));
    }
    Ok(())
}

// ---------------------------------------------------------------- tower

/// A player's standing in the tower.
#[derive(Debug)]
pub struct TowerStatus {
    pub current_floor: i32,
    pub best_floor: i32,
    pub next_floor: i32,
    pub is_boss: bool,
    pub rewards_preview: String,
}

/// Tower standing: the next floor is one above the current; every tenth floor is a boss.
pub fn tower_status(current_floor: i32, best_floor: i32) -> (r: TowerStatus)
    requires
        current_floor < i32::MAX,
    ensures
        r.current_floor == current_floor,
        r.best_floor == best_floor,
        r.next_floor == current_floor + 1,
        r.is_boss == ((current_floor + 1) % 10 == 0),
        r.rewards_preview@ == if r.is_boss {
            "Boss: Essência + Box Épico"@
        } else {
            "Fragmentos + Gold"@
        },
{
    let next = current_floor + 1;
    let is_boss = next % 10 == 0;
    TowerStatus {
        current_floor,
        best_floor,
        next_floor: next,
        is_boss,
        rewards_preview: String::from_str(
            if is_boss {
                "Boss: Essência + Box Épico"
            } else {
                "Fragmentos + Gold"
            },
        ),
    }
}

/// Floor challenged next, as a 16-bit floor number (the count wraps like a cast).
pub fn challenge_floor(current_floor: i32) -> (r: u16)
    requires
        current_floor < i32::MAX,
    ensures
        r == (current_floor + 1) as u16,
{
    #[verifier::truncate]
    ((current_floor + 1) as u16)
}

/// Stage whose enemies a tower floor fights: the floor, at most stage 500.
pub fn tower_stage(floor: u16) -> (r: u16)
    ensures
        r == if floor < 500 {
            floor
        } else {
            500
        },
{
    if floor < 500 {
        floor
    } else {
        500
    }
}

/// Gold and experience of a tower floor: on a victory 50 + 5 per floor gold and
/// 20 + 2 per floor experience, nothing on a defeat.
pub fn tower_rewards(floor: u16, victory: bool) -> (r: (u16, u16))
    requires
        floor <= 13_097,
    ensures
        r == if victory {
            ((50 + floor * 5) as u16, (20 + floor * 2) as u16)
        } else {
            (0u16, 0u16)
        },
{
    if victory {
        (50 + floor * 5, 20 + floor * 2)
    } else {
        (0, 0)
    }
}

/// Current and best floor after a challenge: a victory climbs one floor, and the best
/// floor never goes down.
pub fn tower_progress(current_floor: i32, best_floor: i32, victory: bool) -> (r: (i32, i32))
    requires
        current_floor < i32::MAX,
    ensures
        r.0 == if victory {
            current_floor + 1
        } else {
            current_floor as int
        },
        r.1 == if r.0 > best_floor {
            r.0
        } else {
            best_floor
        },
        r.1 >= best_floor,
        r.1 >= r.0,
{
    let current = if victory {
        current_floor + 1
    } else {
        current_floor
    };
    let best = if current > best_floor {
        current
    } else {
        best_floor
    };
    (current, best)
}

// ---------------------------------------------------------------- island

/// Highest main stage needed to unlock the island.
pub const ISLAND_REQUIRED_STAGE: i16 = 500;

/// Gold the island costs.
pub const ISLAND_COST: i64 = 5000;

/// Whether the island can be unlocked: stage 500 cleared and 5000 gold.
pub fn can_unlock_island(max_stage: i16, gold: i64) -> (r: bool)
    ensures
        r == (max_stage >= 500 && gold >= 5000),
{
    max_stage >= ISLAND_REQUIRED_STAGE && gold >= ISLAND_COST
}

/// Checks an island unlock: stage 500 cleared, then 5000 gold, then not unlocked yet.
pub fn check_island_unlock(max_stage: i16, gold: i64, already: bool) -> (r: Result<(), AppError>)
    ensures
        r is Ok <==> (max_stage >= 500 && gold >= 5000 && !already),
        max_stage < 500 ==> rejected_with(r, "requer Cap.10 Fase 500 completa"@),
        max_stage >= 500 && gold < 5000 ==> rejected_with(r, "5000 Gold necessários para desbloquear Ilha"@),
        max_stage >= 500 && gold >= 5000 && already ==> rejected_with(r, "Ilha já desbloqueada"@),
{
    if max_stage < ISLAND_REQUIRED_STAGE {
        return Err(AppError::Validation(String::from_str("requer Cap.10 Fase 500 completa")));
    }
    if gold < ISLAND_COST {
        return Err(
            AppError::Validation(String::from_str("5000 Gold necessários para desbloquear Ilha")),
        );
    }
    if already {
        return Err(AppError::Validation(String::from_str("Ilha já desbloqueada")));
    }
    Ok(())
}

/// Checks an island stage: 501 to 550.
pub fn check_island_stage(stage: u16) -> (r: Result<(), AppError>)
    ensures
        r is Ok <==> 501 <= stage <= 550,
        !(501 <= stage <= 550) ==> rejected_with(r, "Ilha 501-550 apenas"@),
{
    if !(501 <= stage && stage <= 550) {
        return Err(AppError::Validation(String::from_str("Ilha 501-550 apenas")));
    }
    Ok(())
}

/// Checks an island entry: a stage of the island, then the island unlocked.
pub fn check_island_entry(stage: u16, unlocked: bool) -> (r: Result<(), AppError>)
    ensures
        r is Ok <==> (501 <= stage <= 550 && unlocked),
        !(501 <= stage <= 550) ==> rejected_with(r, "Ilha 501-550 apenas"@),
        501 <= stage <= 550 && !unlocked ==> rejected_with(
            r,
            "desbloqueie a Ilha primeiro (5000 Gold)"@,
        ),
{
    check_island_stage(stage)?;
    if !unlocked {
        return Err(AppError::Validation(String::from_str("desbloqueie a Ilha primeiro (5000 Gold)")));
    }
    Ok(())
}

/// Whether an island stage is the boss stage (550).
pub fn island_boss(stage: u16) -> (r: bool)
    ensures
        r == (stage == 550),
{
    stage == 550
}

// ---------------------------------------------------------------- quests and events

/// Checks a quest claim: not collected yet, then progress at the target.
pub fn check_quest_claim(progress: i32, target: i32, claimed: bool) -> (r: Result<(), AppError>)
    ensures
        r is Ok <==> (!claimed && progress >= target),
        claimed ==> (r matches Err(AppError::Validation(m)) && m@ == "já coletado"@),
        !claimed && progress < target ==> (r matches Err(AppError::Validation(m)) && m@
            == "progresso insuficiente"@),
{
    if claimed {
        return Err(AppError::Validation(String::from_str("já coletado")));
    }
    if progress < target {
        return Err(AppError::Validation(String::from_str("progresso insuficiente")));
    }
    Ok(())
}

/// Gold and diamonds of a daily quest.
pub fn daily_quest_rewards() -> (r: (i64, i64))
    ensures
        r == (100i64, 5i64),
{
    (100, 5)
}

/// Gold and diamonds of a weekly quest.
pub fn weekly_quest_rewards() -> (r: (i64, i64))
    ensures
        r == (500i64, 20i64),
{
    (500, 20)
}

/// Target of every daily quest.
pub const DAILY_QUEST_TARGET: i32 = 3;

/// Target of every weekly quest.
pub const WEEKLY_QUEST_TARGET: i32 = 5;

/// Codes of the daily quests.
pub fn daily_quest_codes() -> (r: Vec<&'static str>)
    ensures
        r@.map_values(|s: &'static str| s@) == seq![
            "complete_stages"@,
            "arena_fights"@,
            "dungeon_clears"@,
            "enhance_items"@,
            "kill_mobs"@,
        ],
{
    let r = vec!["complete_stages", "arena_fights", "dungeon_clears", "enhance_items", "kill_mobs"];
    assert(r@.map_values(|s: &'static str| s@) =~= seq![
        "complete_stages"@,
        "arena_fights"@,
        "dungeon_clears"@,
        "enhance_items"@,
        "kill_mobs"@,
    ]);
    r
}

/// Codes of the weekly quests.
pub fn weekly_quest_codes() -> (r: Vec<&'static str>)
    ensures
        r@.map_values(|s: &'static str| s@) == seq![
            "raid_boss"@,
            "arena_wins"@,
            "tower_floor"@,
            "chapter_hard"@,
            "market_trades"@,
        ],
{
    let r = vec!["raid_boss", "arena_wins", "tower_floor", "chapter_hard", "market_trades"];
    assert(r@.map_values(|s: &'static str| s@) =~= seq![
        "raid_boss"@,
        "arena_wins"@,
        "tower_floor"@,
        "chapter_hard"@,
        "market_trades"@,
    ]);
    r
}

/// Event currency one event reward costs.
pub const EVENT_CLAIM_COST: i64 = 100;

/// Checks an event reward claim: at least 100 event coins.
pub fn check_event_claim(amount: i64) -> (r: Result<(), AppError>)
    ensures
        r is Ok <==> amount >= 100,
        amount < 100 ==> rejected_with(r, "precisa 100 moedas do evento"@),
{
    if amount < EVENT_CLAIM_COST {
        return Err(AppError::Validation(String::from_str("precisa 100 moedas do evento")));
    }
    Ok(())
}

/// Checks an event shop purchase: the balance covers the cost.
pub fn check_event_purchase(balance: i64, cost: i64) -> (r: Result<(), AppError>)
    ensures
        r is Ok <==> balance >= cost,
        balance < cost ==> rejected_with(r, "moeda do evento insuficiente"@),
{
    if balance < cost {
        return Err(AppError::Validation(String::from_str("moeda do evento insuficiente")));
    }
    Ok(())
}

// ---------------------------------------------------------------- awakening

/// Plans an awakening: at most five awakenings, level 100 required, and a gold cost of
/// 5000 plus 5000 per earlier awakening.
pub fn plan_awakening(level: i16, awakening: i16) -> (r: Result<i64, AppError>)
    ensures
        r is Ok <==> (awakening < 5 && level >= 100),
        r matches Ok(cost) ==> cost == 5000 + awakening * 5000,
        awakening >= 5 ==> rejected_with(r, "awakening máximo 5 já atingido"@),
        awakening < 5 && level < 100 ==> rejected_with(r, "requer Level 100 para despertar"@),
{
    if awakening >= 5 {
        return Err(AppError::Validation(String::from_str("awakening máximo 5 já atingido")));
    }
    if level < 100 {
        return Err(AppError::Validation(String::from_str("requer Level 100 para despertar")));
    }
    Ok(5000 + (awakening as i64) * 5000)
}

/// Checks that gold covers a cost, reporting `<prefix><cost>` otherwise.
pub fn check_gold(gold: i64, cost: i64, prefix: &str) -> (r: Result<(), AppError>)
    ensures
        r is Ok <==> gold >= cost,
        r matches Err(e) ==> (e matches AppError::Validation(m) && m@ == prefix@ + decimal_spec(
            cost as int,
        )),
{
    if gold < cost {
        return Err(AppError::Validation(with_decimal(prefix, cost)));
    }
    Ok(())
}

// ---------------------------------------------------------------- skills and runes

/// Skill points of a character that never spent any: one per level above the first.
pub fn starting_skill_points(level: i16) -> (r: i16)
    requires
        level > i16::MIN,
    ensures
        r == if level - 1 > 0 {
            level - 1
        } else {
            0
        },
{
    if level - 1 > 0 {
        level - 1
    } else {
        0
    }
}

/// Checks that a character may learn a skill: the skill exists (`skill_subclass` is the
/// subclass of its tree), and it belongs to the character's subclass or is listed for the
/// character's class and subclass.
pub fn check_skill_tree(
    skill_subclass: Option<&str>,
    character_subclass: &str,
    listed_for_character: bool,
) -> (r: Result<(), AppError>)
    ensures
        r is Ok <==> (skill_subclass matches Some(s) && (s@ == character_subclass@
            || listed_for_character)),
        skill_subclass is None ==> rejected_with(r, "skill_code inválido"@),
        skill_subclass matches Some(s) && s@ != character_subclass@ && !listed_for_character
            ==> rejected_with(r, "skill não pertence à subclasse do personagem"@),
{
    match skill_subclass {
        None => Err(AppError::Validation(String::from_str("skill_code inválido"))),
        Some(s) => {
            if !text_eq(s, character_subclass) && !listed_for_character {
                return Err(
                    AppError::Validation(
                        String::from_str("skill não pertence à subclasse do personagem"),
                    ),
                );
            }
            Ok(())
        },
    }
}

/// Checks a skill point allocation: a point available, then the skill below its cap.
pub fn check_allocation(available: i16, current: i16, max_level: i16) -> (r: Result<(), AppError>)
    ensures
        r is Ok <==> (available > 0 && current < max_level),
        available <= 0 ==> rejected_with(r, "sem pontos de skill disponíveis (ganha 1 por level)"@),
        available > 0 && current >= max_level ==> rejected_with(r, "skill já no nível máximo"@),
{
    if available <= 0 {
        return Err(
            AppError::Validation(
                String::from_str("sem pontos de skill disponíveis (ganha 1 por level)"),
            ),
        );
    }
    if current >= max_level {
        return Err(AppError::Validation(String::from_str("skill já no nível máximo")));
    }
    Ok(())
}

/// Checks a rune socket index: 1 to 4.
pub fn check_socket_index(index: i16) -> (r: Result<(), AppError>)
    ensures
        r is Ok <==> 1 <= index <= 4,
        !(1 <= index <= 4) ==> rejected_with(r, "socket_index 1-4"@),
{
    if !(1 <= index && index <= 4) {
        return Err(AppError::Validation(String::from_str("socket_index 1-4")));
    }
    Ok(())
}

/// Rarities whose items have rune sockets: epic and above.
pub open spec fn socketable_spec(rarity: Seq<char>) -> bool {
    rarity == "epic"@ || rarity == "legendary"@ || rarity == "mythic"@ || rarity == "divine"@
        || rarity == "primordial"@
}

/// Checks that an item of a rarity has sockets.
pub fn check_socketable(rarity: &str) -> (r: Result<(), AppError>)
    ensures
        r is Ok <==> socketable_spec(rarity@),
        !socketable_spec(rarity@) ==> rejected_with(r, "apenas Épico+ tem sockets"@),
{
    if !(text_eq(rarity, "epic") || text_eq(rarity, "legendary") || text_eq(rarity, "mythic")
        || text_eq(rarity, "divine") || text_eq(rarity, "primordial")) {
        return Err(AppError::Validation(String::from_str("apenas Épico+ tem sockets")));
    }
    Ok(())
}

// ---------------------------------------------------------------- crafting

/// Checks a fusion quantity: three or five items.
pub fn check_fusion_quantity(quantity: i32) -> (r: Result<(), AppError>)
    ensures
        r is Ok <==> (quantity == 3 || quantity == 5),
        !(quantity == 3 || quantity == 5) ==> rejected_with(r, "fusão requer 3 ou 5 itens"@),
{
    if quantity != 3 && quantity != 5 {
        return Err(AppError::Validation(String::from_str("fusão requer 3 ou 5 itens")));
    }
    Ok(())
}

/// Template a fusion produces: three items of a rarity make one of the next rarity up
/// to mythic, and five mythic items make divine wings.
pub open spec fn fusion_spec(rarity: Seq<char>, quantity: i32) -> Option<Seq<char>> {
    if rarity == "common"@ && quantity == 3 {
        Some("forest_bow_uncommon"@)
    } else if rarity == "uncommon"@ && quantity == 3 {
        Some("forest_staff_rare"@)
    } else if rarity == "rare"@ && quantity == 3 {
        Some("forest_armor_epic"@)
    } else if rarity == "epic"@ && quantity == 3 {
        Some("forest_relic_legendary"@)
    } else if rarity == "legendary"@ && quantity == 3 {
        Some("forest_crown_mythic"@)
    } else if rarity == "mythic"@ && quantity == 5 {
        Some("celestial_wings_divine"@)
    } else {
        None
    }
}

/// Template a fusion produces.
pub fn fusion_target(rarity: &str, quantity: i32) -> (r: Result<&'static str, AppError>)
    ensures
        r is Ok <==> fusion_spec(rarity@, quantity) is Some,
        r matches Ok(code) ==> fusion_spec(rarity@, quantity) == Some(code@),
        fusion_spec(rarity@, quantity) is None ==> rejected_with(r, "combinação de fusão inválida"@),
{
    if text_eq(rarity, "common") && quantity == 3 {
        Ok("forest_bow_uncommon")
    } else if text_eq(rarity, "uncommon") && quantity == 3 {
        Ok("forest_staff_rare")
    } else if text_eq(rarity, "rare") && quantity == 3 {
        Ok("forest_armor_epic")
    } else if text_eq(rarity, "epic") && quantity == 3 {
        Ok("forest_relic_legendary")
    } else if text_eq(rarity, "legendary") && quantity == 3 {
        Ok("forest_crown_mythic")
    } else if text_eq(rarity, "mythic") && quantity == 5 {
        Ok("celestial_wings_divine")
    } else {
        Err(AppError::Validation(String::from_str("combinação de fusão inválida")))
    }
}

/// Checks that a player holds enough items of a fusion's template.
pub fn check_fusion_stock(count: i64, quantity: i32) -> (r: Result<(), AppError>)
    ensures
        r is Ok <==> count >= quantity,
        count < quantity ==> rejected_with(r, "itens insuficientes para fusão"@),
{
    if count < quantity as i64 {
        return Err(AppError::Validation(String::from_str("itens insuficientes para fusão")));
    }
    Ok(())
}

/// Checks that a player holds enough of a crafting material.
pub fn check_material(have: i64, need: i64, code: &str) -> (r: Result<(), AppError>)
    ensures
        r is Ok <==> have >= need,
        r matches Err(e) ==> (e matches AppError::Validation(m) && m@ == "material insuficiente: "@
            + code@ + " precisa "@ + decimal_spec(need as int)),
{
    if have < need {
        let mut message = String::from_str("material insuficiente: ");
        message.append(code);
        message.append(" precisa ");
        append_decimal(&mut message, need);
        return Err(AppError::Validation(message));
    }
    Ok(())
}

// ---------------------------------------------------------------- enchanting

/// Gold an enchantment costs.
pub const ENCHANT_GOLD_COST: i64 = 200;

/// Checks an enchantment: a scroll, then 200 gold.
pub fn check_enchant(scrolls: i64, gold: i64) -> (r: Result<(), AppError>)
    ensures
        r is Ok <==> (scrolls >= 1 && gold >= 200),
        scrolls < 1 ==> rejected_with(r, "sem Scroll de Enchant (drop/evento)"@),
        scrolls >= 1 && gold < 200 ==> rejected_with(r, "200 Gold necessários"@),
{
    if scrolls < 1 {
        return Err(AppError::Validation(String::from_str("sem Scroll de Enchant (drop/evento)")));
    }
    if gold < ENCHANT_GOLD_COST {
        return Err(AppError::Validation(String::from_str("200 Gold necessários")));
    }
    Ok(())
}

/// Secondary stats an enchantment may reroll, in order.
pub open spec fn reroll_pool() -> Seq<Seq<char>> {
    seq![
        "crit_rate"@,
        "crit_damage"@,
        "attack_speed"@,
        "luck"@,
        "accuracy"@,
        "dodge"@,
        "penetration"@,
        "hp"@,
        "defense"@,
    ]
}

/// Whether a stat name is among the locked ones.
pub open spec fn is_locked(locked: Seq<String>, name: Seq<char>) -> bool {
    exists|i: int| 0 <= i < locked.len() && (#[trigger] locked[i])@ == name
}

/// The stats of the pool among the first `n` that are not locked, in pool order.
pub open spec fn unlocked_upto(locked: Seq<String>, n: int) -> Seq<Seq<char>>
    decreases n,
{
    if n <= 0 {
        seq![]
    } else if is_locked(locked, reroll_pool()[n - 1]) {
        unlocked_upto(locked, n - 1)
    } else {
        unlocked_upto(locked, n - 1).push(reroll_pool()[n - 1])
    }
}

fn locked_contains(locked: &Vec<String>, name: &str) -> (r: bool)
    ensures
        r == is_locked(locked@, name@),
{
    let mut i: usize = 0;
    while i < locked.len()
        invariant
            i <= locked.len(),
            forall|j: int| 0 <= j < i ==> (#[trigger] locked@[j])@ != name@,
        decreases locked.len() - i,
    {
        if text_eq(locked[i].as_str(), name) {
            return true;
        }
        i = i + 1;
    }
    false
}

/// Stats an enchantment may reroll: the pool without the locked stats, in pool order.
pub fn reroll_candidates(locked: &Vec<String>) -> (r: Vec<&'static str>)
    ensures
        r@.map_values(|s: &'static str| s@) == unlocked_upto(locked@, 9),
{
    let pool = vec![
        "crit_rate",
        "crit_damage",
        "attack_speed",
        "luck",
        "accuracy",
        "dodge",
        "penetration",
        "hp",
        "defense",
    ];
    assert(pool@.map_values(|s: &'static str| s@) =~= reroll_pool());
    let mut out: Vec<&'static str> = Vec::new();
    let mut i: usize = 0;
    while i < pool.len()
        invariant
            i <= pool.len(),
            pool@.len() == 9,
            pool@.map_values(|s: &'static str| s@) == reroll_pool(),
            out@.map_values(|s: &'static str| s@) == unlocked_upto(locked@, i as int),
        decreases pool.len() - i,
    {
        let name = pool[i];
        assert(name@ == reroll_pool()[i as int]);
        if !locked_contains(locked, name) {
            let ghost before = out@;
            out.push(name);
            assert(out@.map_values(|s: &'static str| s@) =~= before.map_values(
                |s: &'static str| s@,
            ).push(name@));
        }
        i = i + 1;
    }
    out
}

/// No stat that `unlocked_upto` keeps is locked, and it keeps at most `n` stats.
pub proof fn lemma_unlocked_not_locked(locked: Seq<String>, n: int)
    ensures
        unlocked_upto(locked, n).len() <= if n > 0 {
            n
        } else {
            0
        },
        forall|i: int|
            0 <= i < unlocked_upto(locked, n).len() ==> !is_locked(
                locked,
                #[trigger] unlocked_upto(locked, n)[i],
            ),
    decreases n,
{
    if n > 0 {
        lemma_unlocked_not_locked(locked, n - 1);
    }
}

/// Shuffles the names with `rand::seq::SliceRandom::shuffle` and `rand::thread_rng()`.
/// The order is random; stated is what holds of every outcome: the same names, each as
/// often as before.
#[verifier::external_body]
fn shuffle_names(names: Vec<&'static str>) -> (r: Vec<&'static str>)
    ensures
        r@.to_multiset() == names@.to_multiset(),
{
    let mut names = names;
    names.shuffle(&mut rand::thread_rng());
    names
}

/// Draws `Rng::gen_range(0..bound)` from `rand::thread_rng()`: a random number below
/// the bound.
#[verifier::external_body]
fn random_below(bound: u32) -> (r: u32)
    requires
        bound > 0,
    ensures
        r < bound,
{
    rand::thread_rng().gen_range(0..bound)
}

/// Number of stats an enchantment rerolls: two, plus one when `extra` is drawn, but no
/// more than there are candidates.
pub open spec fn reroll_count_spec(candidates: int, extra: u32) -> int {
    if 2 + extra <= candidates {
        2 + extra
    } else {
        candidates
    }
}

/// The stats an enchantment rerolls, from the candidates in shuffled order and the
/// draw `extra` (0 or 1): the first two, or three when `extra` is 1, or all when fewer
/// are left.
pub fn take_rerolled(shuffled: Vec<&'static str>, extra: u32) -> (r: Vec<&'static str>)
    requires
        extra < 2,
    ensures
        r@ == shuffled@.take(reroll_count_spec(shuffled@.len() as int, extra)),
{
    let count: usize = if (2 + extra as usize) <= shuffled.len() {
        2 + extra as usize
    } else {
        shuffled.len()
    };
    let mut out: Vec<&'static str> = Vec::new();
    let mut i: usize = 0;
    while i < count
        invariant
            i <= count <= shuffled.len(),
            count == reroll_count_spec(shuffled@.len() as int, extra),
            out@ == shuffled@.take(i as int),
        decreases count - i,
    {
        out.push(shuffled[i]);
        i = i + 1;
        assert(out@ =~= shuffled@.take(i as int));
    }
    out
}

/// Picks the stats an enchantment rerolls: two or three of the stats that are not
/// locked, chosen at random (all of them when fewer are unlocked). A locked stat is
/// never picked, so it keeps its value, and at most three stats change.
pub fn enchant_picks(locked: &Vec<String>) -> (r: Vec<&'static str>)
    ensures
        r@.len() <= 3,
        r@.len() == 2 || r@.len() == 3 || r@.len() == unlocked_upto(locked@, 9).len(),
        r@.len() >= 2 || r@.len() == unlocked_upto(locked@, 9).len(),
        forall|i: int| 0 <= i < r@.len() ==> unlocked_upto(locked@, 9).contains((#[trigger] r@[i])@),
        forall|i: int| 0 <= i < r@.len() ==> !is_locked(locked@, (#[trigger] r@[i])@),
{
    let candidates = reroll_candidates(locked);
    let ghost cands = candidates@;
    let shuffled = shuffle_names(candidates);
    let extra = random_below(2);
    let r = take_rerolled(shuffled, extra);
    proof {
        broadcast use vstd::seq_lib::group_to_multiset_ensures;

        lemma_unlocked_not_locked(locked@, 9);
        let names = unlocked_upto(locked@, 9);
        assert(cands.map_values(|s: &'static str| s@) == names);
        assert(shuffled@.len() == cands.len()) by {
            assert(shuffled@.to_multiset().len() == cands.to_multiset().len());
        }
        assert forall|i: int| 0 <= i < r@.len() implies names.contains((#[trigger] r@[i])@) && !is_locked(
            locked@,
            r@[i]@,
        ) by {
            let x = r@[i];
            assert(x == shuffled@[i]);
            assert(shuffled@.contains(x));
            assert(shuffled@.to_multiset().count(x) > 0);
            assert(cands.to_multiset().count(x) > 0);
            assert(cands.contains(x));
            let j = choose|j: int| 0 <= j < cands.len() && cands[j] == x;
            assert(cands.map_values(|s: &'static str| s@)[j] == x@);
            assert(names[j] == x@);
        }
    }
    r
}

} // verus!
