use tigrus_heist::balance::{base_chance, heat_effects, heat_gain, reward_range};
use tigrus_heist::items::{aggregate, available_items, catalog, item_name, required_pp};
use tigrus_heist::minigames::{check_simon_step, gen_simon_seq, qte_spec_for, score_qte, simon_spec_for};
use tigrus_heist::resolution::{resolve_solo, resolve_solo_with, success_chance};
use tigrus_heist::types::{
    CrimeMode, HeistOutcome, ItemKey, MinigameKind, MinigameResult, PlayerProfile, QteSpec, Risk, SoloHeistConfig, ONE,
};

const MODES: [CrimeMode; 8] = [
    CrimeMode::Standard,
    CrimeMode::Szybki,
    CrimeMode::Ostrozny,
    CrimeMode::Shadow,
    CrimeMode::Hardcore,
    CrimeMode::Ryzykowny,
    CrimeMode::Planowany,
    CrimeMode::Szalony,
];
const RISKS: [Risk; 4] = [Risk::Low, Risk::Medium, Risk::High, Risk::Hardcore];
const ITEMS: [ItemKey; 6] = [
    ItemKey::HackerLaptop,
    ItemKey::ProGloves,
    ItemKey::Toolkit,
    ItemKey::Adrenaline,
    ItemKey::SmokeGrenade,
    ItemKey::LockpickSet,
];

fn cfg(mode: CrimeMode, risk: Risk, items: Vec<ItemKey>) -> SoloHeistConfig {
    SoloHeistConfig { mode: Some(mode), risk: Some(risk), minigame: MinigameKind::Simon, items }
}

fn veteran() -> PlayerProfile {
    PlayerProfile { user_id: 7, balance: 1000, heat: 0, thief_skill: 50, pp: 0 }
}

#[test]
fn base_chance_values() {
    assert_eq!(base_chance(CrimeMode::Standard, Risk::Low), 62);
    assert_eq!(base_chance(CrimeMode::Standard, Risk::Medium), 52);
    assert_eq!(base_chance(CrimeMode::Planowany, Risk::Low), 66);
    assert_eq!(base_chance(CrimeMode::Szalony, Risk::Hardcore), 24);
    assert_eq!(base_chance(CrimeMode::Szybki, Risk::High), 39);
}

#[test]
fn base_chance_falls_with_risk_and_stays_in_band() {
    for m in MODES {
        let c: Vec<i32> = RISKS.iter().map(|r| base_chance(m, *r)).collect();
        assert!(c[0] > c[1] && c[1] > c[2] && c[2] > c[3]);
        for x in c {
            assert!((5..=95).contains(&x));
        }
    }
}

#[test]
fn reward_range_values_and_order() {
    assert_eq!(reward_range(CrimeMode::Standard, Risk::Low), (300, 600));
    assert_eq!(reward_range(CrimeMode::Standard, Risk::Medium), (600, 1200));
    assert_eq!(reward_range(CrimeMode::Szalony, Risk::Hardcore), (3000, 5250));
    assert_eq!(reward_range(CrimeMode::Szybki, Risk::Low), (285, 570));
    assert_eq!(reward_range(CrimeMode::Shadow, Risk::High), (1380, 2760));
    for m in MODES {
        for r in RISKS {
            let (lo, hi) = reward_range(m, r);
            assert!(lo <= hi);
        }
    }
}

#[test]
fn heat_gain_per_tier() {
    assert_eq!(heat_gain(Risk::Low), 4);
    assert_eq!(heat_gain(Risk::Medium), 7);
    assert_eq!(heat_gain(Risk::High), 10);
    assert_eq!(heat_gain(Risk::Hardcore), 14);
}

#[test]
fn heat_effects_cold_player_is_unpenalised() {
    let e = heat_effects(CrimeMode::Hardcore, Risk::Hardcore, 10);
    assert_eq!(e.chance_mult, ONE);
    assert_eq!(e.reward_mult, ONE);
    assert_eq!(e.qte_window_mult, ONE);
    assert_eq!(e.simon_seq_delta, 0);
    assert_eq!(e.extra_cooldown_secs, 0);
    assert_eq!(e.ambush_chance_pct, 0);
}

#[test]
fn heat_effects_hardcore_at_heat_95() {
    let e = heat_effects(CrimeMode::Hardcore, Risk::Hardcore, 95);
    // 20% ambush scaled by 1.5 (risk) and 1.6 (mode)
    assert_eq!(e.ambush_chance_pct, 48);
    assert!(e.ambush_chance_pct <= 100);
    // penalty 0.35 * 1.5 * 1.6 = 0.84
    assert_eq!(e.chance_mult, 160_000);
    // penalty 0.25 * 2.4 = 0.6
    assert_eq!(e.reward_mult, 400_000);
    // penalty 0.4 * 2.4 = 0.96, held at 0.95
    assert_eq!(e.qte_window_mult, 50_000);
    // 3 * 1.5 * 1.3 = 5.85
    assert_eq!(e.simon_seq_delta, 6);
    // 10 * 1.5 * 1.6 = 24
    assert_eq!(e.extra_cooldown_secs, 24);
}

#[test]
fn heat_effects_band_edges_and_overflowing_heat() {
    let a = heat_effects(CrimeMode::Standard, Risk::Medium, 24);
    let b = heat_effects(CrimeMode::Standard, Risk::Medium, 25);
    assert_eq!(a.chance_mult, ONE);
    assert_eq!(b.chance_mult, 950_000);
    let c = heat_effects(CrimeMode::Standard, Risk::Medium, 100);
    let d = heat_effects(CrimeMode::Standard, Risk::Medium, 5000);
    assert_eq!(c, d);
    assert_eq!(c.ambush_chance_pct, 20);
    assert_eq!(c.chance_mult, 650_000);
    let low = heat_effects(CrimeMode::Ostrozny, Risk::Low, 60);
    // 0.10 * 0.7 * 0.85 = 0.0595
    assert_eq!(low.chance_mult, 940_500);
    // 1 * 0.7 * 0.85 = 0.595
    assert_eq!(low.simon_seq_delta, 1);
}

#[test]
fn aggregate_empty_is_neutral() {
    let e = aggregate(&[]);
    assert_eq!(e.qte_window_mult, ONE);
    assert_eq!(e.qte_grace_ms, 0);
    assert_eq!(e.simon_seq_delta, 0);
    assert_eq!(e.simon_time_mult, ONE);
    assert_eq!(e.timer_extend_pct, 0);
    assert_eq!(e.heat_reduce_pct, 0);
    assert_eq!(e.payout_bonus_pct, 0);
    assert_eq!(e.success_pp_bonus, 0);
    assert_eq!(e.heat_mult, ONE);
    assert_eq!(e.fail_penalty_mult, ONE);
}

#[test]
fn aggregate_gloves_and_lockpick_reach_delta_floor() {
    let e = aggregate(&[ItemKey::ProGloves, ItemKey::LockpickSet]);
    assert_eq!(e.simon_seq_delta, -2);
    assert_eq!(e.simon_time_mult, 1_050_000);
}

#[test]
fn aggregate_item_contributions() {
    let e = aggregate(&[ItemKey::HackerLaptop, ItemKey::Adrenaline, ItemKey::Toolkit]);
    assert_eq!(e.qte_grace_ms, 40);
    assert_eq!(e.qte_window_mult, 1_155_000);
    assert_eq!(e.simon_time_mult, 1_080_000);
    assert_eq!(e.fail_penalty_mult, 900_000);
    assert_eq!(e.heat_mult, 1_050_000);
    assert_eq!(e.payout_bonus_pct, 50_000);
    let s = aggregate(&[ItemKey::SmokeGrenade]);
    assert_eq!(s.heat_reduce_pct, 80_000);
    assert_eq!(s.timer_extend_pct, 50_000);
    let swapped = aggregate(&[ItemKey::Toolkit, ItemKey::Adrenaline, ItemKey::HackerLaptop]);
    assert_eq!(e, swapped);
}

#[test]
fn aggregate_clamps_stacked_items() {
    let e = aggregate(&[ItemKey::HackerLaptop; 6]);
    assert_eq!(e.qte_grace_ms, 120);
    assert_eq!(e.qte_window_mult, 1_500_000);
    let a = aggregate(&[ItemKey::Adrenaline; 5]);
    assert_eq!(a.fail_penalty_mult, 700_000);
    assert_eq!(a.heat_mult, 1_200_000);
    assert_eq!(a.simon_time_mult, 1_300_000);
    let t = aggregate(&[ItemKey::Toolkit; 4]);
    assert_eq!(t.payout_bonus_pct, 150_000);
    let long = vec![ItemKey::LockpickSet; 500];
    assert_eq!(aggregate(&long).simon_seq_delta, -2);
}

#[test]
fn aggregate_every_small_loadout_stays_in_bands() {
    let mut loadouts: Vec<Vec<ItemKey>> = vec![vec![]];
    for a in 0..6 {
        loadouts.push(vec![ITEMS[a]]);
        for b in (a + 1)..6 {
            loadouts.push(vec![ITEMS[a], ITEMS[b]]);
            for c in (b + 1)..6 {
                loadouts.push(vec![ITEMS[a], ITEMS[b], ITEMS[c]]);
            }
        }
    }
    assert_eq!(loadouts.len(), 42);
    for l in loadouts {
        let e = aggregate(&l);
        assert!((900_000..=1_500_000).contains(&e.qte_window_mult));
        assert!((0..=120).contains(&e.qte_grace_ms));
        assert!((-2..=0).contains(&e.simon_seq_delta));
        assert!((ONE..=1_300_000).contains(&e.simon_time_mult));
        assert!((0..=250_000).contains(&e.timer_extend_pct));
        assert!((0..=150_000).contains(&e.heat_reduce_pct));
        assert!((0..=150_000).contains(&e.payout_bonus_pct));
        assert!((0..=150_000).contains(&e.success_pp_bonus));
        assert!((800_000..=1_200_000).contains(&e.heat_mult));
        assert!((700_000..=1_200_000).contains(&e.fail_penalty_mult));
    }
}

#[test]
fn catalog_thresholds_and_names() {
    assert_eq!(required_pp(ItemKey::LockpickSet), 0);
    assert_eq!(required_pp(ItemKey::ProGloves), 5);
    assert_eq!(required_pp(ItemKey::Toolkit), 10);
    assert_eq!(required_pp(ItemKey::SmokeGrenade), 15);
    assert_eq!(required_pp(ItemKey::HackerLaptop), 22);
    assert_eq!(required_pp(ItemKey::Adrenaline), 30);
    assert_eq!(item_name(ItemKey::LockpickSet), "Zestaw wytrychów");
    assert_eq!(item_name(ItemKey::Adrenaline), "Adrenalina");
    assert_eq!(catalog().len(), 6);
}

#[test]
fn available_items_by_progress() {
    assert_eq!(available_items(0), vec![ItemKey::LockpickSet]);
    assert_eq!(available_items(4), vec![ItemKey::LockpickSet]);
    assert_eq!(
        available_items(14),
        vec![ItemKey::LockpickSet, ItemKey::ProGloves, ItemKey::Toolkit]
    );
    assert_eq!(available_items(22).len(), 5);
    assert_eq!(available_items(u32::MAX), catalog());
}

#[test]
fn qte_spec_windows() {
    assert_eq!(qte_spec_for(Risk::Low, 0), QteSpec { target_ms: 1200, window_ms: 220 });
    assert_eq!(qte_spec_for(Risk::Hardcore, 40).window_ms, 110);
    assert_eq!(qte_spec_for(Risk::Hardcore, -100).window_ms, 40);
    assert_eq!(qte_spec_for(Risk::Medium, 0).window_ms, 150);
}

#[test]
fn score_qte_tri_state() {
    let spec = qte_spec_for(Risk::Medium, 0);
    assert_eq!(score_qte(1200, &spec), MinigameResult::Success);
    assert_eq!(score_qte(1350, &spec), MinigameResult::Success);
    assert_eq!(score_qte(1049, &spec), MinigameResult::Partial(151));
    assert_eq!(score_qte(1500, &spec), MinigameResult::Partial(300));
    assert_eq!(score_qte(1501, &spec), MinigameResult::Fail);
    assert_eq!(score_qte(i32::MIN, &spec), MinigameResult::Fail);
}

#[test]
fn simon_lengths() {
    assert_eq!(simon_spec_for(Risk::Low, 0).length, 4);
    assert_eq!(simon_spec_for(Risk::Medium, 0).length, 5);
    assert_eq!(simon_spec_for(Risk::High, 0).length, 6);
    assert_eq!(simon_spec_for(Risk::Hardcore, 0).length, 7);
    assert_eq!(simon_spec_for(Risk::Low, -2).length, 3);
    assert_eq!(simon_spec_for(Risk::Medium, -2).length, 3);
    assert_eq!(simon_spec_for(Risk::High, -2).length, 4);
    assert_eq!(simon_spec_for(Risk::Low, 100).length, 8);
    assert_eq!(simon_spec_for(Risk::Hardcore, i32::MAX).length, 8);
    assert_eq!(simon_spec_for(Risk::Hardcore, i32::MIN).length, 3);
    assert_eq!(simon_spec_for(Risk::Low, 0).alphabet, ['A', 'B', 'C', 'D']);
}

#[test]
fn simon_sequence_draws_from_alphabet() {
    let spec = simon_spec_for(Risk::Hardcore, 1);
    let mut seen = std::collections::HashSet::new();
    for _ in 0..50 {
        let s = gen_simon_seq(&spec);
        assert_eq!(s.len(), 8);
        for c in s {
            assert!(spec.alphabet.contains(&c));
            seen.insert(c);
        }
    }
    assert!(seen.len() > 1);
}

#[test]
fn simon_step_ignores_ascii_case() {
    assert!(check_simon_step('A', 'A'));
    assert!(check_simon_step('B', 'b'));
    assert!(check_simon_step('c', 'C'));
    assert!(!check_simon_step('A', 'B'));
    assert!(!check_simon_step('D', '?'));
}

#[test]
fn scenario_success_with_won_minigame() {
    let c = cfg(CrimeMode::Standard, Risk::Medium, vec![]);
    assert_eq!(success_chance(&veteran(), &c, MinigameResult::Success), 8500);
    for reward in [600, 900, 1200] {
        let (after, out) = resolve_solo_with(veteran(), &c, MinigameResult::Success, 5000, reward);
        assert!(out.success);
        assert_eq!(out, HeistOutcome { success: true, amount_base: reward, amount_final: reward, heat_delta: 7 });
        assert_eq!(after.balance, 1000 + reward);
        assert_eq!(after.pp, 1);
        assert_eq!(after.thief_skill, 50);
        assert_eq!(after.heat, 7);
    }
}

#[test]
fn scenario_failure_with_lost_minigame() {
    let c = cfg(CrimeMode::Standard, Risk::Medium, vec![]);
    assert_eq!(success_chance(&veteran(), &c, MinigameResult::Fail), 4500);
    let (after, out) = resolve_solo_with(veteran(), &c, MinigameResult::Fail, 9000, 1000);
    assert!(!out.success);
    assert_eq!(out.amount_final, -350);
    assert_eq!(out.amount_base, -350);
    assert_eq!(out.heat_delta, 9);
    assert_eq!(after.balance, 650);
    assert_eq!(after.heat, 9);
    assert_eq!(after.pp, 0);
    // 0.35 * 1001 = 350.35, 0.35 * 1010 = 353.5
    let (a2, _) = resolve_solo_with(veteran(), &c, MinigameResult::Fail, 9000, 1001);
    assert_eq!(a2.balance, 650);
    let (a3, _) = resolve_solo_with(veteran(), &c, MinigameResult::Fail, 9000, 1010);
    assert_eq!(a3.balance, 1000 - 354);
}

#[test]
fn roll_boundary_is_strict() {
    let c = cfg(CrimeMode::Standard, Risk::Medium, vec![]);
    let (_, hit) = resolve_solo_with(veteran(), &c, MinigameResult::Fail, 4499, 600);
    let (_, miss) = resolve_solo_with(veteran(), &c, MinigameResult::Fail, 4500, 600);
    assert!(hit.success);
    assert!(!miss.success);
}

#[test]
fn chance_parts_and_clamps() {
    let novice = PlayerProfile { user_id: 1, balance: 0, heat: 0, thief_skill: 5, pp: 0 };
    let c = cfg(CrimeMode::Standard, Risk::Medium, vec![]);
    // 52 + 1.5 - 10
    assert_eq!(success_chance(&novice, &c, MinigameResult::NotPlayed), 4350);
    // 52 + 1.5 + (12 - 100/25)
    assert_eq!(success_chance(&novice, &c, MinigameResult::Partial(100)), 6150);
    assert_eq!(success_chance(&novice, &c, MinigameResult::Partial(300)), 5350);
    assert_eq!(success_chance(&novice, &c, MinigameResult::Partial(1000)), 5350);
    assert_eq!(success_chance(&novice, &c, MinigameResult::Partial(-50)), 6550);
    let best = cfg(CrimeMode::Planowany, Risk::Low, vec![]);
    assert_eq!(success_chance(&veteran(), &best, MinigameResult::Success), 9900);
    let worst = cfg(CrimeMode::Szalony, Risk::Hardcore, vec![]);
    let zero = PlayerProfile { thief_skill: 0, ..novice };
    assert_eq!(success_chance(&zero, &worst, MinigameResult::Fail), 200);
    let defaults = SoloHeistConfig::default();
    assert_eq!(success_chance(&zero, &defaults, MinigameResult::Fail), 3000);
}

#[test]
fn items_scale_heat_and_penalty() {
    let c = cfg(CrimeMode::Standard, Risk::High, vec![ItemKey::Adrenaline]);
    // 10 * 1.05 = 10.5 rounds to 11; on failure 2 more
    let (_, won) = resolve_solo_with(veteran(), &c, MinigameResult::Success, 0, 1200);
    assert_eq!(won.heat_delta, 11);
    let (after, lost) = resolve_solo_with(veteran(), &c, MinigameResult::Fail, 9999, 2000);
    assert_eq!(lost.heat_delta, 13);
    // 2000 * 0.35 * 0.9 = 630
    assert_eq!(lost.amount_final, -630);
    assert_eq!(after.balance, 370);
}

#[test]
fn won_minigame_beats_lost_one() {
    for m in MODES {
        for r in RISKS {
            for skill in [0, 25, 50] {
                let p = PlayerProfile { thief_skill: skill, ..veteran() };
                let c = cfg(m, r, vec![]);
                assert!(
                    success_chance(&p, &c, MinigameResult::Success) > success_chance(&p, &c, MinigameResult::Fail)
                );
            }
        }
    }
}

#[test]
fn resolution_is_deterministic_given_draws() {
    let c = cfg(CrimeMode::Shadow, Risk::High, vec![ItemKey::Toolkit, ItemKey::SmokeGrenade]);
    let p = PlayerProfile { user_id: 3, balance: -40, heat: 12, thief_skill: 20, pp: 9 };
    for roll in [0, 3000, 6000, 9999] {
        let a = resolve_solo_with(p, &c, MinigameResult::Partial(80), roll, 1500);
        let b = resolve_solo_with(p, &c, MinigameResult::Partial(80), roll, 1500);
        assert_eq!(a, b);
    }
}

#[test]
fn random_resolution_keeps_progress_laws() {
    let c = cfg(CrimeMode::Ryzykowny, Risk::Hardcore, vec![]);
    let (lo, hi) = reward_range(CrimeMode::Ryzykowny, Risk::Hardcore);
    let mut p = PlayerProfile { user_id: 9, balance: 0, heat: 0, thief_skill: 45, pp: 0 };
    let mut amounts = std::collections::HashSet::new();
    for _ in 0..40 {
        let (after, out) = resolve_solo(p, &c, MinigameResult::Partial(150));
        assert!(after.thief_skill >= p.thief_skill && after.thief_skill <= 50);
        assert!(after.pp >= p.pp);
        assert_eq!(after.pp == p.pp + 1, out.success);
        if out.success {
            assert!(out.amount_final >= lo && out.amount_final <= hi);
        } else {
            assert!(out.amount_final < 0);
        }
        assert_eq!(after.balance, p.balance + out.amount_final);
        amounts.insert(out.amount_final);
        p = after;
    }
    assert_eq!(p.thief_skill, 50);
    assert!(amounts.len() > 1);
}

#[test]
fn pp_saturates_at_ceiling() {
    let c = cfg(CrimeMode::Standard, Risk::Low, vec![]);
    let p = PlayerProfile { pp: u32::MAX, ..veteran() };
    let (after, out) = resolve_solo_with(p, &c, MinigameResult::Success, 0, 300);
    assert!(out.success);
    assert_eq!(after.pp, u32::MAX);
}

#[test]
fn default_profile_and_config() {
    let p = PlayerProfile::default();
    assert_eq!(p, PlayerProfile { user_id: 0, balance: 0, heat: 0, thief_skill: 5, pp: 0 });
    let c = SoloHeistConfig::default();
    assert_eq!(c.mode, None);
    assert_eq!(c.risk, None);
    assert_eq!(c.minigame, MinigameKind::Qte);
    assert!(c.items.is_empty());
}
