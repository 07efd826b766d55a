use ascendia_server::progression::{awakened_base_stats, awakening_percent};
use ascendia_server::player::{check_slot_change, check_slot_number, slot_unlock_level, SlotTarget};
use ascendia_server::progression::{add_experience, base_for_class, MAX_LEVEL};
use ascendia_server::vip::{
    benefits_for, check_grant, effective_level, level_for_points, next_level_points,
    vip_threshold,
};

#[test]
fn experiencia_pode_subir_multiplos_levels() {
    assert_eq!(add_experience(1, 0, 350), (3, 50));
}

#[test]
fn level_duzentos_nao_avanca() {
    assert_eq!(add_experience(200, 50, 500), (200, 550));
}

#[test]
fn stats_crescem_com_level() {
    let first = base_for_class("warrior", 1);
    let tenth = base_for_class("warrior", 10);
    assert!(tenth.0 > first.0 && tenth.1 > first.1 && tenth.2 > first.2);
}

#[test]
fn slots_seguem_levels_do_design() {
    assert_eq!([1, 2, 3, 4, 5, 6].map(slot_unlock_level), [1, 5, 15, 35, 55, 80]);
}

#[test]
fn vip_levels_progridem() {
    assert_eq!(level_for_points(0), 0);
    assert_eq!(level_for_points(100), 1);
    assert_eq!(level_for_points(42000), 15);
    assert_eq!(level_for_points(99999), 15);
}

#[test]
fn experience_is_conserved_across_level_ups() {
    // Level 5 costs 500, level 6 costs 600: 1000 buys one level and leaves 500.
    let (level, rest) = add_experience(5, 0, 1000);
    assert_eq!((level, rest), (6, 500));
    // Spent experience plus the rest equals what was held plus what was gained.
    assert_eq!(5 * 100 + rest, 0 + 1000);
}

#[test]
fn negative_experience_is_ignored() {
    assert_eq!(add_experience(3, 10, -50), (3, 10));
}

#[test]
fn level_cap_keeps_the_rest() {
    assert_eq!(add_experience(199, 0, 1_000_000), (MAX_LEVEL, 1_000_000 - 19_900));
}

#[test]
fn experience_saturates_instead_of_overflowing() {
    assert_eq!(add_experience(200, i64::MAX - 1, 10), (200, i64::MAX));
}

#[test]
fn base_stats_of_each_class() {
    assert_eq!(base_for_class("warrior", 1), (1500, 110, 180));
    assert_eq!(base_for_class("archer", 1), (800, 180, 70));
    assert_eq!(base_for_class("mage", 1), (1000, 150, 100));
    assert_eq!(base_for_class("warrior", 10), (2580, 160, 261));
    assert_eq!(base_for_class("archer", 11), (1440, 270, 105));
}

#[test]
fn base_stats_never_fall_with_level() {
    for class in ["warrior", "archer", "commander"] {
        let mut previous = base_for_class(class, 1);
        for level in 2..=200 {
            let current = base_for_class(class, level);
            assert!(current.0 >= previous.0 && current.1 >= previous.1 && current.2 >= previous.2);
            previous = current;
        }
    }
}

#[test]
fn slot_numbers_are_checked() {
    assert!(check_slot_number(1).is_ok());
    assert!(check_slot_number(6).is_ok());
    assert!(check_slot_number(0).is_err());
    assert!(check_slot_number(7).is_err());
    assert_eq!(slot_unlock_level(7), i16::MAX);
}

#[test]
fn locked_slot_cannot_be_changed() {
    assert!(check_slot_change(3, 14, SlotTarget::Empty).is_err());
    assert!(check_slot_change(3, 15, SlotTarget::Empty).is_ok());
}

#[test]
fn vip_thresholds_and_levels_agree() {
    for level in 0..=15 {
        let threshold = vip_threshold(level);
        assert_eq!(level_for_points(threshold), level);
        if level > 0 {
            assert_eq!(level_for_points(threshold - 1), level - 1);
        }
    }
    assert_eq!(vip_threshold(16), i64::MAX);
}

#[test]
fn vip_next_level_and_effective_level() {
    assert_eq!(next_level_points(0), Some(100));
    assert_eq!(next_level_points(14), Some(42000));
    assert_eq!(next_level_points(15), None);
    assert_eq!(effective_level(3, 100), 3);
    assert_eq!(effective_level(0, 1000), 4);
    assert!(check_grant(1).is_ok());
    assert!(check_grant(0).is_err());
    assert_eq!(benefits_for(0), vec!["Base do jogo"]);
    assert_eq!(benefits_for(1).len(), 3);
}

#[test]
fn awakening_multiplies_level_one_base_stats() {
    assert_eq!(awakened_base_stats("warrior", 0), (1500, 110, 180));
    assert_eq!(awakened_base_stats("warrior", 1), (2250, 165, 270));
    assert_eq!(awakened_base_stats("archer", 2), (1600, 360, 140));
    assert_eq!(awakened_base_stats("mage", 3), (3000, 450, 300));
    assert_eq!(awakened_base_stats("mage", 4), (5000, 750, 500));
    assert_eq!(awakened_base_stats("warrior", 5), (13500, 990, 1620));
    assert_eq!(awakening_percent(5), 900);
}
