use ascendia_server::activities::{enchant_picks, take_rerolled};
use ascendia_server::activities::{
    check_allocation, check_enchant, check_expedition_start, check_fusion_quantity,
    check_island_entry, check_island_unlock, check_skill_tree, fusion_target, plan_awakening,
    reroll_candidates,
};
use ascendia_server::battle_pass::{check_claim, check_premium_funds, rewards_for, season_rewards};
use ascendia_server::error::AppError;
use ascendia_server::guild::{
    check_can_leave, check_guild_capacity, check_war_challenge, members_after_leave,
};
use ascendia_server::inventory::equip_slot;
use ascendia_server::limits::{check_ip_count, check_user_count, counts_address};
use ascendia_server::market::{acceptance_error, decide_acceptance, traded_item_owner, TradeDecision};
use ascendia_server::offline::{claim, OfflineReceipt};
use ascendia_server::player::{check_recruit, check_slot_change, SlotTarget, SoldierClass};
use ascendia_server::ranking::needs_rebuild;
use ascendia_server::social::{check_actor_is, check_friend_request, check_not_self};
use ascendia_server::stage::{check_squad_not_empty, check_stage_number, check_stage_unlocked};
use ascendia_server::vip::benefits_upto;

fn message(result: Result<(), AppError>) -> String {
    match result {
        Err(AppError::Validation(m)) | Err(AppError::Conflict(m)) => m,
        other => panic!("unexpected {:?}", other),
    }
}

#[test]
fn offline_claims_replay_their_receipt() {
    let (first, replayed) = claim(None, 0, 100_000, 10);
    assert!(!replayed);
    assert_eq!(first, OfflineReceipt { elapsed_seconds: 43_200, gold: 180, experience: 90 });
    let (again, replayed) = claim(Some(first), 3, 5, 40);
    assert!(replayed);
    assert_eq!(again, first);
    let (vip, _) = claim(None, 2, 100_000, 10);
    assert_eq!(vip.elapsed_seconds, 86_400);
    let (negative, _) = claim(None, 0, -30, 10);
    assert_eq!(negative, OfflineReceipt { elapsed_seconds: 0, gold: 0, experience: 0 });
}

#[test]
fn stage_access_rules() {
    assert_eq!(message(check_stage_number(51)), "o MVP contém as fases 1 a 50");
    assert!(check_stage_number(50).is_ok());
    assert!(check_stage_unlocked(4, 3).is_ok());
    assert_eq!(message(check_stage_unlocked(5, 3)), "conclua a fase anterior primeiro");
    assert_eq!(message(check_squad_not_empty(0)), "squad vazio");
    assert!(check_squad_not_empty(1).is_ok());
}

#[test]
fn recruitment_and_squad_messages() {
    assert_eq!(message(check_recruit("Al", SoldierClass::Warrior, "paladin", 10)), "name: tamanho inválido");
    assert_eq!(
        message(check_recruit("Aegis", SoldierClass::Warrior, "ranger", 10)),
        "subclasse incompatível com a classe"
    );
    assert_eq!(
        message(check_recruit("Aegis", SoldierClass::Archer, "ranger", 10)),
        "classe desbloqueia no level 15"
    );
    assert!(check_recruit("Aegis", SoldierClass::Warrior, "guardian", 5).is_ok());
    assert_eq!(message(check_slot_change(4, 20, SlotTarget::Empty)), "slot 4 desbloqueia no level 35");
    assert_eq!(message(check_slot_change(1, 20, SlotTarget::Empty)), "o Líder não pode ser removido");
    assert_eq!(
        message(check_slot_change(2, 20, SlotTarget::Character { is_leader: true })),
        "slot 1 é exclusivo do Líder"
    );
    assert!(check_slot_change(1, 1, SlotTarget::Character { is_leader: true }).is_ok());
}

#[test]
fn activity_messages() {
    assert_eq!(message(check_island_unlock(499, 9_999, false)), "requer Cap.10 Fase 500 completa");
    assert_eq!(message(check_island_unlock(500, 4_999, false)), "5000 Gold necessários para desbloquear Ilha");
    assert_eq!(message(check_island_unlock(500, 5_000, true)), "Ilha já desbloqueada");
    assert_eq!(message(check_island_entry(600, true)), "Ilha 501-550 apenas");
    assert_eq!(message(check_island_entry(510, false)), "desbloqueie a Ilha primeiro (5000 Gold)");
    assert!(check_island_entry(550, true).is_ok());
    assert_eq!(message(check_expedition_start(true, 0, 3, false)), "personagem no squad ativo não pode expedir");
    assert_eq!(message(check_expedition_start(false, 3, 3, false)), "slots de expedição cheios (3)");
    assert_eq!(message(check_expedition_start(false, 0, 3, true)), "personagem já em expedição");
    assert_eq!(plan_awakening(100, 2).unwrap(), 15_000);
    assert!(plan_awakening(99, 0).is_err());
    assert!(plan_awakening(200, 5).is_err());
    assert_eq!(message(check_allocation(0, 0, 5)), "sem pontos de skill disponíveis (ganha 1 por level)");
    assert_eq!(message(check_allocation(1, 5, 5)), "skill já no nível máximo");
    assert_eq!(message(check_skill_tree(None, "guardian", false)), "skill_code inválido");
    assert_eq!(
        message(check_skill_tree(Some("ranger"), "guardian", false)),
        "skill não pertence à subclasse do personagem"
    );
    assert!(check_skill_tree(Some("ranger"), "guardian", true).is_ok());
    assert!(check_skill_tree(Some("guardian"), "guardian", false).is_ok());
    assert_eq!(message(check_fusion_quantity(4)), "fusão requer 3 ou 5 itens");
    assert_eq!(fusion_target("mythic", 5).unwrap(), "celestial_wings_divine");
    assert!(fusion_target("mythic", 3).is_err());
    assert_eq!(message(check_enchant(0, 1_000)), "sem Scroll de Enchant (drop/evento)");
    assert_eq!(message(check_enchant(1, 199)), "200 Gold necessários");
    let candidates = reroll_candidates(&vec!["luck".to_string(), "hp".to_string()]);
    assert_eq!(candidates.len(), 7);
    assert!(!candidates.contains(&"luck") && !candidates.contains(&"hp"));
}

#[test]
fn battle_pass_levels() {
    let all = season_rewards();
    assert_eq!(all.len(), 50);
    assert_eq!(all[0].free, "500 Gold");
    assert_eq!(all[49].level, 50);
    assert_eq!(rewards_for(7).free, "Gold/fragmentos");
    assert_eq!(message(check_premium_funds(10, 500)), "diamantes insuficientes: precisa 500");
    assert_eq!(message(check_claim(3, 2_500, 3)), "XP insuficiente: 2500/3000");
    assert_eq!(message(check_claim(3, 3_000, 2)), "level ainda não alcançado");
}

#[test]
fn guild_and_social_rules() {
    assert_eq!(message(check_can_leave(None)), "você não está em guilda");
    assert_eq!(message(check_can_leave(Some("leader"))), "líder não pode sair; transfira liderança ou delete");
    assert!(check_can_leave(Some("member")).is_ok());
    assert_eq!(members_after_leave(10), 9);
    assert_eq!(members_after_leave(1), 1);
    assert_eq!(message(check_guild_capacity(50)), "guilda cheia (50)");
    assert_eq!(message(check_war_challenge("member", 1, 2)), "apenas Líder/Vice/Oficial pode desafiar");
    assert_eq!(message(check_war_challenge("officer", 1, 1)), "não pode desafiar própria guilda");
    assert_eq!(message(check_friend_request(true, false)), "já são amigos");
    assert_eq!(message(check_friend_request(false, true)), "pedido já enviado");
    assert_eq!(message(check_not_self(5, 5, "não pode adicionar a si mesmo")), "não pode adicionar a si mesmo");
    assert!(matches!(check_actor_is(1, 2), Err(AppError::Unauthorized)));
    assert!(check_actor_is(2, 2).is_ok());
}

#[test]
fn trades_and_limits() {
    assert_eq!(decide_acceptance(false, true, 1, 1), TradeDecision::NotPending);
    assert_eq!(decide_acceptance(true, true, 1, 2), TradeDecision::Expired);
    assert_eq!(decide_acceptance(true, false, 1, 2), TradeDecision::NotRecipient);
    assert_eq!(decide_acceptance(true, false, 2, 2), TradeDecision::Proceed);
    assert!(acceptance_error(TradeDecision::Proceed).is_none());
    assert!(matches!(acceptance_error(TradeDecision::NotRecipient), Some(AppError::Unauthorized)));
    match acceptance_error(TradeDecision::Expired) {
        Some(AppError::Validation(m)) => assert_eq!(m, "trade expirou (60s anti-scam)"),
        other => panic!("unexpected {:?}", other),
    }
    assert_eq!(traded_item_owner(7, 7, 9), 9);
    assert_eq!(traded_item_owner(9, 7, 9), 7);
    assert!(check_ip_count(100).is_ok());
    assert_eq!(message(check_ip_count(101)), "rate limit por IP excedido (100/min)");
    assert_eq!(message(check_user_count("trade", 11)), "rate limit trade excedido (10/min)");
    assert!(check_user_count("inventory", 60).is_ok());
    assert!(!counts_address(""));
    assert!(counts_address("10.0.0.1"));
    assert!(needs_rebuild(true, 0));
    assert!(!needs_rebuild(true, 20));
}

#[test]
fn equipment_slots_of_items() {
    assert_eq!(equip_slot(Some("ring".to_string()), 2).unwrap(), "ring");
    match equip_slot(None, 1) {
        Err(AppError::Validation(m)) => assert_eq!(m, "este item não é equipável"),
        other => panic!("unexpected {:?}", other),
    }
    assert!(equip_slot(Some("head".to_string()), 2).is_err());
}

#[test]
fn vip_benefits_accumulate_by_level() {
    let all = benefits_upto(2);
    assert_eq!(all.len(), 3);
    assert_eq!(all[0], vec!["Base do jogo"]);
    assert_eq!(all[2], vec!["+10% EXP", "+5% Drop Rate", "Auto-loot"]);
    assert!(benefits_upto(-1).is_empty());
}

#[test]
fn joining_twice_is_a_conflict() {
    match ascendia_server::guild::check_not_joined(true, "já registrado") {
        Err(AppError::Conflict(m)) => assert_eq!(m, "já registrado"),
        other => panic!("unexpected {:?}", other),
    }
    assert!(ascendia_server::guild::check_not_joined(false, "já está em guilda").is_ok());
    assert_eq!(
        message(ascendia_server::guild::check_tournament_capacity(32)),
        "bracket cheio 32"
    );
}

#[test]
fn enchant_takes_two_or_three_in_shuffled_order() {
    assert_eq!(take_rerolled(vec!["a", "b", "c", "d"], 0), vec!["a", "b"]);
    assert_eq!(take_rerolled(vec!["a", "b", "c", "d"], 1), vec!["a", "b", "c"]);
    assert_eq!(take_rerolled(vec!["a"], 1), vec!["a"]);
    assert!(take_rerolled(vec![], 0).is_empty());
}

#[test]
fn enchant_never_rerolls_locked_stats() {
    let locked: Vec<String> = vec!["luck".to_string(), "hp".to_string(), "dodge".to_string()];
    for _ in 0..50 {
        let picks = enchant_picks(&locked);
        assert!(picks.len() == 2 || picks.len() == 3);
        assert!(picks.iter().all(|p| !locked.iter().any(|l| l == p)));
    }
    let all: Vec<String> = ["crit_rate", "crit_damage", "attack_speed", "luck", "accuracy", "dodge", "penetration", "hp", "defense"]
        .iter()
        .map(|s| s.to_string())
        .collect();
    assert!(enchant_picks(&all).is_empty());
    assert_eq!(enchant_picks(&all[1..].to_vec()), vec!["crit_rate"]);
}
