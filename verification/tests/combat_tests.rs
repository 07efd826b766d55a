use ascendia_server::stage::{stage_outcome, StageOutcome, StartCombat, DROP_SEED_SALT};
use ascendia_server::bosses::{
    boss_hp_after, check_raid_alive, check_world_boss_claim, world_boss_cap, world_boss_damage,
};
use ascendia_server::error::AppError;
use ascendia_server::replay::{client_timed_out, pending_events, PROTOCOL_VERSION};
use ascendia_server::drops::{bonus_ppm, rank, rarity_from_word, roll_rarity, Rarity};
use ascendia_server::engine::{Duel, Striker};
use ascendia_server::stage::{stage_rewards, Difficulty};
use ascendia_server::stage_run::StageRun;
use ascendia_server::waves::{base_factor_permille, chapter_for_stage, enemy_wave};

#[test]
fn drop_e_deterministico() {
    assert_eq!(roll_rarity(123, 100_000, 0), roll_rarity(123, 100_000, 0));
}

#[test]
fn bonus_nunca_rebaixa_a_raridade_na_mesma_seed() {
    for seed in 0..1_000 {
        assert!(rank(roll_rarity(seed, 1_000_000, 500_000)) >= rank(roll_rarity(seed, 0, 0)));
    }
}

#[test]
fn troll_substitui_lobo_na_decima_fase() {
    assert_eq!(enemy_wave(10, 3).name, "troll");
    assert_eq!(enemy_wave(9, 3).name, "wolf");
}

#[test]
fn generator_words_spread_over_rarities() {
    // With no bonus, about 40% of draws are above Common; a generator that handed the
    // seed back would make every small seed Common.
    let above_common = (0..1_000u64).filter(|seed| roll_rarity(*seed, 0, 0) != Rarity::Common).count();
    assert!(above_common > 200 && above_common < 600);
}

#[test]
fn rarity_thresholds_of_a_word() {
    // The top 53 bits of the word make the uniform draw.
    assert_eq!(rarity_from_word(0, 0, 0), Rarity::Common);
    assert_eq!(rarity_from_word(u64::MAX, 0, 0), Rarity::Mythic);
    // Half way is below 0.60: Common; the full bonus of 0.55 lifts it past the cap: Mythic.
    let half = 1u64 << 63;
    assert_eq!(rarity_from_word(half, 0, 0), Rarity::Common);
    assert_eq!(rarity_from_word(half, 1_000_000, 500_000), Rarity::Mythic);
    assert_eq!(rarity_from_word(0, 0, 500_000), Rarity::Common);
    assert_eq!(rarity_from_word(0, 1_000_000, 500_000), Rarity::Common);
    assert_eq!(rarity_from_word(half, 0, 100_000), Rarity::Uncommon);
}

#[test]
fn drop_bonus_is_clamped() {
    assert_eq!(bonus_ppm(1_000_000, 0), 120_000);
    assert_eq!(bonus_ppm(5_000_000, 0), 120_000);
    assert_eq!(bonus_ppm(-1, -1), 0);
    assert_eq!(bonus_ppm(1_000_000, 900_000), 550_000);
}

#[test]
fn stage_cap_lowers_rarity() {
    assert_eq!(Rarity::Mythic.limited_to_stage(3), Rarity::Common);
    assert_eq!(Rarity::Mythic.limited_to_stage(25), Rarity::Epic);
    assert_eq!(Rarity::Rare.limited_to_stage(45), Rarity::Rare);
    assert_eq!(Rarity::Mythic.limited_to_stage(50), Rarity::Mythic);
    let once = Rarity::Legendary.limited_to_stage(12);
    assert_eq!(once.limited_to_stage(12), once);
    assert_eq!(Rarity::Epic.code(), "forest_armor_epic");
}

#[test]
fn duel_turns_follow_strike_clocks() {
    let mut duel = Duel::new(100, 30, 500, 700, 10_000);
    // t=500 attacker, t=700 defender, t=1000 attacker, t=1400 defender, t=1500 attacker.
    let mut order = Vec::new();
    while let Some(striker) = duel.next_striker() {
        order.push(striker);
        duel.apply_strike(striker, 10);
    }
    assert_eq!(
        order,
        vec![Striker::Attacker, Striker::Defender, Striker::Attacker, Striker::Defender, Striker::Attacker]
    );
    let result = duel.result();
    assert!(result.victory);
    assert_eq!(result.damage_dealt, 30);
    assert_eq!(result.damage_taken, 20);
    assert_eq!(result.turns, 5);
    assert_eq!(result.duration_ms, 1500);
}

#[test]
fn duel_stops_at_the_time_limit() {
    let mut duel = Duel::new(100, 100, 400, 400, 1_000);
    let mut turns = 0;
    while let Some(striker) = duel.next_striker() {
        duel.apply_strike(striker, 1);
        turns += 1;
    }
    let result = duel.result();
    assert!(!result.victory);
    assert_eq!(turns, 4);
    assert!(result.duration_ms <= 1_000);
    assert_eq!(result.damage_dealt + result.damage_taken, 4);
}

#[test]
fn duel_hit_points_below_one_count_as_one() {
    let duel = Duel::new(-5, 0, 100, 100, 1_000);
    assert_eq!(duel.attacker_hp, 1);
    assert_eq!(duel.defender_hp, 1);
}

#[test]
fn stage_of_three_cleared_waves_is_a_victory() {
    let mut run = StageRun::new(&vec![100, 0]);
    assert_eq!(run.alive_hp, vec![100, 1]);
    for wave in 1..=3u8 {
        run.begin_wave(50, 2);
        assert!(run.round_continues());
        run.squad_hit(60);
        run.enemy_hit(0, 5);
        run.squad_hit(40);
        run.end_round();
        assert!(!run.round_continues());
        assert!(run.finish_wave(enemy_wave(10, wave).name, 2));
    }
    let result = run.finish();
    assert!(result.victory);
    assert_eq!(result.damage_dealt, 300);
    assert_eq!(result.damage_taken, 15);
    assert_eq!(result.duration_ms, 3000);
    assert_eq!(result.events.len(), 3);
    assert_eq!(result.events[2].enemy, "troll");
    assert_eq!(result.events[1].squad_damage, 200);
}

#[test]
fn stage_stops_when_the_squad_falls() {
    let mut run = StageRun::new(&vec![10]);
    run.begin_wave(100, 1);
    run.enemy_hit(0, 10);
    assert!(!run.any_alive());
    assert!(run.living().is_empty());
    assert!(!run.finish_wave("goblin", 1));
    let result = run.finish();
    assert!(!result.victory);
    assert_eq!(result.events.len(), 1);
}

#[test]
fn chapters_and_scaling() {
    assert_eq!(chapter_for_stage(1), 1);
    assert_eq!(chapter_for_stage(50), 1);
    assert_eq!(chapter_for_stage(51), 2);
    assert_eq!(chapter_for_stage(451), 10);
    assert_eq!(base_factor_permille(1), 1000 + 45 + 350);
    assert_eq!(base_factor_permille(600), base_factor_permille(500));
    assert_eq!(enemy_wave(50, 3).count, 1);
    assert_ne!(enemy_wave(50, 3).name, "troll");
}

#[test]
fn harder_difficulty_pays_more() {
    let normal = stage_rewards(10, Difficulty::Normal, true);
    let hard = stage_rewards(10, Difficulty::Hard, true);
    assert!(hard.0 >= normal.0 && hard.1 >= normal.1);
    let later = stage_rewards(11, Difficulty::Normal, true);
    assert!(later.0 >= normal.0 && later.1 >= normal.1);
}

#[test]
fn boss_damage_rules() {
    assert!(check_world_boss_claim(1).is_ok());
    assert!(check_world_boss_claim(1_000_000).is_ok());
    match check_world_boss_claim(0) {
        Err(AppError::Validation(m)) => assert_eq!(m, "damage deve ser 1-1000000"),
        other => panic!("unexpected {:?}", other),
    }
    assert!(check_world_boss_claim(1_000_001).is_err());
    assert_eq!(world_boss_cap(5_000), 3_500);
    assert_eq!(world_boss_cap(5_001), 3_500);
    assert_eq!(world_boss_cap(-3_001), -500);
    assert_eq!(world_boss_damage(10_000, 3_500), 3_500);
    assert_eq!(world_boss_damage(200, 3_500), 200);
    assert_eq!(world_boss_damage(200, -500), 1);
    assert_eq!(boss_hp_after(100, 30), 70);
    assert_eq!(boss_hp_after(100, 300), 0);
    assert!(check_raid_alive(1).is_ok());
    assert!(check_raid_alive(0).is_err());
}

#[test]
fn replay_resumes_after_the_last_sequence() {
    let mut run = StageRun::new(&vec![100]);
    for _ in 0..3 {
        run.begin_wave(10, 1);
        run.squad_hit(10);
        run.finish_wave("slime", 1);
    }
    let events = run.finish().events;
    let pending = pending_events(&events, 1);
    assert_eq!(pending.iter().map(|e| e.sequence).collect::<Vec<_>>(), vec![2, 3]);
    assert!(pending_events(&events, 3).is_empty());
    assert_eq!(pending_events(&events, 0).len(), 3);
    let twice = pending_events(&pending_events(&events, 1), 2);
    assert_eq!(twice.iter().map(|e| e.sequence).collect::<Vec<_>>(), vec![3]);
    let once = pending_events(&events, 2);
    assert_eq!(once.iter().map(|e| e.sequence).collect::<Vec<_>>(), vec![3]);
    assert!(!client_timed_out(45_000));
    assert!(client_timed_out(45_001));
    assert_eq!(PROTOCOL_VERSION, 1);
}

#[test]
fn victory_experience_is_applied_to_the_leader() {
    let request = StartCombat { stage: 10, difficulty: Difficulty::Hard };
    let out = stage_outcome(request, true, 42, 0, 1, 90);
    assert_eq!(out.gold, 78);
    assert_eq!(out.experience, 45);
    assert_eq!((out.leader_level, out.leader_experience), (2, 35));
    assert_eq!(
        out.drop,
        Some(roll_rarity(42 ^ DROP_SEED_SALT, 0, 20_000).limited_to_stage(10))
    );
}

#[test]
fn defeat_grants_nothing_and_leaves_the_leader() {
    let request = StartCombat { stage: 7, difficulty: Difficulty::Chaos };
    let out = stage_outcome(request, false, 9, 500_000, 12, 30);
    assert_eq!(
        out,
        StageOutcome { gold: 0, experience: 0, drop: None, leader_level: 12, leader_experience: 30 }
    );
}

#[test]
fn stage_outcome_depends_only_on_request_and_server_values() {
    let request = StartCombat { stage: 25, difficulty: Difficulty::Inferno };
    let first = stage_outcome(request, true, 77, 120_000, 40, 10);
    let second = stage_outcome(StartCombat { stage: 25, difficulty: Difficulty::Inferno }, true, 77, 120_000, 40, 10);
    assert_eq!(first, second);
    assert_eq!(first.gold, (25 + 4 * 25) * 150 / 100);
    assert_eq!(first.experience, 15 + 3 * 25);
}
