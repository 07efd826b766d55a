use ascendia_server::arena::{bot_power, matchmaking_window, rating_after, remaining_fights, tier_for_rating, vip_bonus};
use ascendia_server::cosmetics::{plan_upgrade, CosmeticType};
use ascendia_server::inventory::{
    cosmetic_bonus, enhancement_chance, enhancement_multiplier_percent, enhancement_outcome,
    fragment_material, plan_enhancement, validate_slot_index,
};
use ascendia_server::error::AppError;
use ascendia_server::market::{check_bid, check_listing, listing_page, sale_split};
use ascendia_server::offline::{offline_cap, rewards, STANDARD_CAP_SECONDS, VIP_CAP_SECONDS};
use ascendia_server::ranking::{assign_ranks, page_bounds, MAX_PAGE_SIZE};
use ascendia_server::squad::{formation_and_synergy, scale_percent};

#[test]
fn tabela_de_chance_segue_design() {
    assert_eq!(enhancement_chance(10) as f64 / 100.0, 1.0);
    assert_eq!(enhancement_chance(11) as f64 / 100.0, 0.8);
    assert_eq!(enhancement_chance(15) as f64 / 100.0, 0.6);
    assert_eq!(enhancement_chance(18) as f64 / 100.0, 0.4);
    assert_eq!(enhancement_chance(20) as f64 / 100.0, 0.2);
}

#[test]
fn somente_anel_aceita_segundo_slot() {
    assert!(validate_slot_index("ring", 2).is_ok());
    assert!(validate_slot_index("head", 2).is_err());
}

#[test]
fn recompensa_respeita_metade_e_fase() {
    assert_eq!(rewards(0, 43_200), (0, 0));
    assert_eq!(rewards(1, 3_600), (6, 3));
}

#[test]
fn teto_normal_e_vip_sao_diferentes() {
    assert_eq!(STANDARD_CAP_SECONDS, 43_200);
    assert_eq!(VIP_CAP_SECONDS, 86_400);
}

#[test]
fn pagina_e_limitada() {
    assert_eq!(100_usize.clamp(1, MAX_PAGE_SIZE), 50);
    assert_eq!(0_usize.clamp(1, MAX_PAGE_SIZE), 1);
    assert_eq!(page_bounds(0, 100).limit, 50);
    assert_eq!(page_bounds(0, 0).limit, 1);
}

#[test]
fn vanguarda_e_dupla_de_guerreiros_acumulam() {
    let bonuses = formation_and_synergy(
        &vec![1, 2],
        &vec!["warrior".to_string(), "warrior".to_string()],
        "vanguard",
    );
    assert_eq!(scale_percent(100, bonuses[0].defense_percent), 115);
    assert_eq!(scale_percent(100, bonuses[0].hp_percent), 110);
}

#[test]
fn enhancement_chance_outside_the_table_is_zero() {
    assert_eq!(enhancement_chance(0), 0);
    assert_eq!(enhancement_chance(21), 0);
    assert_eq!(enhancement_chance(14), 80);
    assert_eq!(enhancement_chance(17), 60);
    assert_eq!(enhancement_chance(19), 40);
}

#[test]
fn slot_validation_errors() {
    match validate_slot_index("tail", 1) {
        Err(AppError::Validation(m)) => assert_eq!(m, "slot inválido"),
        other => panic!("unexpected {:?}", other),
    }
    match validate_slot_index("ring", 3) {
        Err(AppError::Validation(m)) => assert_eq!(m, "índice de slot inválido"),
        other => panic!("unexpected {:?}", other),
    }
    assert!(validate_slot_index("ring", 1).is_ok());
    assert!(validate_slot_index("relic", 1).is_ok());
}

#[test]
fn enhancement_plans_and_outcomes() {
    let plan = plan_enhancement(4).unwrap();
    assert_eq!((plan.target, plan.cost), (5, 25));
    assert_eq!(enhancement_outcome(plan, 4, true), 5);
    assert_eq!(enhancement_outcome(plan, 4, false), 4);
    assert!(plan_enhancement(20).is_err());
    assert_eq!(enhancement_multiplier_percent(10), 180);
    assert_eq!(fragment_material(3), "item_fragment_t3");
}

#[test]
fn cosmetic_upgrades_progress_and_stop_at_the_top() {
    let plan = plan_upgrade(CosmeticType::Wings, 1, 9, 1_000).unwrap();
    assert_eq!((plan.cost, plan.tier, plan.stars, plan.tier_up), (100, 2, 0, true));
    let plan = plan_upgrade(CosmeticType::Mount, 2, 9, 1_000).unwrap();
    assert_eq!((plan.cost, plan.tier, plan.stars, plan.tier_up), (200, 2, 10, false));
    match plan_upgrade(CosmeticType::Mount, 2, 10, 1_000) {
        Err(AppError::Validation(m)) => assert_eq!(m, "cosmético já está no máximo"),
        other => panic!("unexpected {:?}", other),
    }
    match plan_upgrade(CosmeticType::Wings, 2, 3, 10) {
        Err(AppError::Validation(m)) => assert_eq!(m, "fragmentos insuficientes: são necessários 80"),
        other => panic!("unexpected {:?}", other),
    }
}

#[test]
fn cosmetic_bonuses() {
    let wings = cosmetic_bonus("wings", 2, 3);
    assert_eq!((wings.attack, wings.crit_rate_thousandths), (10 + 13 * 3, 26));
    let mount = cosmetic_bonus("mount", 1, 0);
    assert_eq!((mount.hp, mount.defense), (50, 5));
    let other = cosmetic_bonus("cape", 3, 3);
    assert_eq!((other.attack, other.hp, other.defense), (0, 0, 0));
}

#[test]
fn offline_rewards_are_monotone_and_capped() {
    assert_eq!(offline_cap(0), 43_200);
    assert_eq!(offline_cap(1), 86_400);
    assert_eq!(rewards(10, 7_200), (30, 15));
    assert_eq!(rewards(5, -10), (0, 0));
    let mut previous = (0, 0);
    for elapsed in (0..=86_400).step_by(600) {
        let current = rewards(7, elapsed);
        assert!(current.0 >= previous.0 && current.1 >= previous.1);
        previous = current;
    }
}

#[test]
fn ranks_skip_stale_cache_entries() {
    let cached = vec![Some(7u128), None, Some(9), Some(3)];
    let rows = vec![3u128, 7];
    assert_eq!(assign_ranks(10, &cached, &rows), vec![(11, 7), (12, 3)]);
    let bounds = page_bounds(20, 10);
    assert_eq!((bounds.start, bounds.limit, bounds.end), (20, 10, 29));
}

#[test]
fn synergies_of_archers_and_assault() {
    let bonuses = formation_and_synergy(
        &vec![1, 4, 5],
        &vec!["archer".to_string(), "archer".to_string(), "mage".to_string()],
        "assault",
    );
    assert_eq!(bonuses[0].attack_percent, 100);
    assert_eq!(bonuses[1].attack_percent, 115);
    assert_eq!(bonuses[0].crit_rate_hundredths, 5);
    assert_eq!(bonuses[2].crit_rate_hundredths, 0);
    assert_eq!(bonuses[2].attack_percent, 115);
    assert_eq!(scale_percent(101, 115), 116);
    assert_eq!(scale_percent(-101, 115), -116);
}

#[test]
fn arena_rules() {
    assert_eq!(tier_for_rating(1000), "bronze");
    assert_eq!(tier_for_rating(1100), "prata");
    assert_eq!(tier_for_rating(2700), "primordial");
    assert_eq!(rating_after(1000, true), 1015);
    assert_eq!(rating_after(10, false), 0);
    assert_eq!(vip_bonus(9), 5);
    assert_eq!(remaining_fights(3, 1), 3);
    assert_eq!(remaining_fights(9, 0), 0);
    assert_eq!(matchmaking_window(1000), (750, 1250));
    assert_eq!(bot_power(1000), 900);
    let (low, high) = matchmaking_window(12_345);
    assert!(low <= 12_345 && 12_345 <= high);
}

#[test]
fn marketplace_rules() {
    assert_eq!(sale_split(105), (10, 95));
    assert_eq!(listing_page(-5, 500), (0, 50));
    assert!(check_listing(false, false, false, 19, 20).is_ok());
    match check_listing(false, false, false, 20, 20) {
        Err(AppError::Validation(m)) => assert_eq!(m, "limite de listagens ativas atingido (20)"),
        other => panic!("unexpected {:?}", other),
    }
    match check_bid(true, false, false, 100, 100) {
        Err(AppError::Validation(m)) => assert_eq!(m, "lance deve superar 100"),
        other => panic!("unexpected {:?}", other),
    }
    assert!(check_bid(true, false, false, 101, 100).is_ok());
}
