use tigrus_heist::items::{aggregate, required_pp};
use tigrus_heist::keys::{from_key_item, from_key_mode, from_key_risk, key_item, mode_to_str, risk_to_str};
use tigrus_heist::labels::{
    bag_bar3, bar10, chip_step, emoji_for_item, emoji_for_minigame, emoji_for_mode, emoji_for_risk,
    format_heat_summary, item_short_desc, mode_label, progress_bar,
};
use tigrus_heist::balance::{heat_effects, HeatEffects};
use tigrus_heist::minigames::simon_spec_for;
use tigrus_heist::repo::{MemorySoloRepo, SoloRepo};
use tigrus_heist::resolution::resolve_solo_with;
use tigrus_heist::session::{
    extract_cfg, newly_unlocked, pick_loadout, simon_preview_ms, RevealReply, SoloSession, SoloState,
};
use tigrus_heist::types::{CrimeMode, ItemKey, MinigameKind, MinigameResult, PlayerProfile, Risk, ONE};

fn configured(mode: CrimeMode, risk: Risk, items: &[ItemKey]) -> SoloSession {
    let mut s = SoloSession::new(42);
    s.choose_mode(mode);
    s.choose_risk(risk);
    s.select_items(items, 100);
    s
}

fn sequence(s: &SoloSession) -> Vec<char> {
    match &s.state {
        SoloState::InSimon { seq, .. } => seq.clone(),
        _ => panic!("not in the minigame"),
    }
}

#[test]
fn keys_round_trip_and_defaults() {
    for m in [
        CrimeMode::Standard,
        CrimeMode::Szybki,
        CrimeMode::Ostrozny,
        CrimeMode::Shadow,
        CrimeMode::Hardcore,
        CrimeMode::Ryzykowny,
        CrimeMode::Planowany,
        CrimeMode::Szalony,
    ] {
        assert_eq!(from_key_mode(mode_to_str(m)), m);
    }
    for r in [Risk::Low, Risk::Medium, Risk::High, Risk::Hardcore] {
        assert_eq!(from_key_risk(risk_to_str(r)), r);
    }
    for k in [
        ItemKey::HackerLaptop,
        ItemKey::ProGloves,
        ItemKey::Toolkit,
        ItemKey::Adrenaline,
        ItemKey::SmokeGrenade,
        ItemKey::LockpickSet,
    ] {
        assert_eq!(from_key_item(key_item(k)), Some(k));
    }
    assert_eq!(mode_to_str(CrimeMode::Ostrozny), "ostrozny");
    assert_eq!(risk_to_str(Risk::Hardcore), "hardcore");
    assert_eq!(key_item(ItemKey::SmokeGrenade), "smoke");
    assert_eq!(from_key_mode("nope"), CrimeMode::Standard);
    assert_eq!(from_key_risk(""), Risk::Medium);
    assert_eq!(from_key_item("LAPTOP"), None);
}

#[test]
fn repo_creates_once_and_saves() {
    let mut repo = MemorySoloRepo::new();
    let p = repo.get_or_create(11);
    assert_eq!(p, PlayerProfile { user_id: 11, balance: 0, heat: 0, thief_skill: 5, pp: 0 });
    let changed = PlayerProfile { heat: 30, pp: 4, ..p };
    repo.save(&changed);
    assert_eq!(repo.get_or_create(11), changed);
    assert_eq!(repo.get_or_create(12).user_id, 12);
    assert_eq!(repo.get_or_create(11), changed);
}

#[test]
fn new_session_is_default_config() {
    let s = SoloSession::new(5);
    assert_eq!(s.user_id, 5);
    match &s.state {
        SoloState::Config(c) => {
            assert_eq!(c.mode, None);
            assert_eq!(c.risk, None);
            assert!(c.items.is_empty());
        }
        _ => panic!("expected configuration"),
    }
    assert_eq!(s.pending_result(), MinigameResult::NotPlayed);
}

#[test]
fn configuration_events() {
    let mut s = SoloSession::new(1);
    let saved = s.choose_mode(CrimeMode::Shadow).expect("saved");
    assert_eq!(saved.mode, Some(CrimeMode::Shadow));
    let saved = s.choose_risk(Risk::High).expect("saved");
    assert_eq!(saved.risk, Some(Risk::High));
    assert_eq!(saved.mode, Some(CrimeMode::Shadow));
    let saved = s
        .select_items(&[ItemKey::Adrenaline, ItemKey::ProGloves, ItemKey::LockpickSet, ItemKey::Toolkit, ItemKey::SmokeGrenade], 12)
        .expect("saved");
    assert_eq!(saved.items, vec![ItemKey::ProGloves, ItemKey::LockpickSet, ItemKey::Toolkit]);
    let c = extract_cfg(&s);
    assert_eq!(c.items, saved.items);
    let t = s.toggle_item(ItemKey::LockpickSet).expect("saved");
    assert_eq!(t.items, vec![ItemKey::ProGloves, ItemKey::Toolkit]);
    let t = s.toggle_item(ItemKey::Adrenaline).expect("saved");
    assert_eq!(t.items, vec![ItemKey::ProGloves, ItemKey::Toolkit, ItemKey::Adrenaline]);
    let t = s.toggle_item(ItemKey::SmokeGrenade).expect("saved");
    assert_eq!(t.items.len(), 3);
}

#[test]
fn pick_loadout_keeps_three_unlocked() {
    assert_eq!(pick_loadout(&[ItemKey::Adrenaline, ItemKey::LockpickSet], 0), vec![ItemKey::LockpickSet]);
    assert_eq!(
        pick_loadout(&[ItemKey::Toolkit, ItemKey::ProGloves, ItemKey::LockpickSet, ItemKey::SmokeGrenade], 30).len(),
        3
    );
    assert!(pick_loadout(&[], 30).is_empty());
}

#[test]
fn start_needs_mode_and_risk() {
    let mut s = SoloSession::new(1);
    assert!(s.start(0).is_none());
    s.choose_mode(CrimeMode::Standard);
    assert!(s.start(0).is_none());
    assert!(matches!(s.state, SoloState::Config(_)));
    s.choose_risk(Risk::Medium);
    let saved = s.start(1000).expect("started");
    assert_eq!(saved.minigame, MinigameKind::Simon);
    assert_eq!(s.base_cfg.minigame, MinigameKind::Simon);
    match &s.state {
        SoloState::InSimon { spec, seq, cursor, result, reveal_until, reveals_left } => {
            assert_eq!(spec.length, 5);
            assert_eq!(seq.len(), 5);
            assert_eq!(*cursor, 0);
            assert_eq!(*result, None);
            assert_eq!(*reveals_left, 1);
            assert_eq!(*reveal_until, Some(1000 + 5 * 750));
        }
        _ => panic!("expected the minigame"),
    }
    assert!(s.choose_mode(CrimeMode::Szalony).is_none());
}

#[test]
fn start_sizes_by_items() {
    let mut s = configured(CrimeMode::Standard, Risk::High, &[ItemKey::ProGloves, ItemKey::Adrenaline]);
    s.start(0).expect("started");
    let eff = aggregate(&[ItemKey::ProGloves, ItemKey::Adrenaline]);
    assert_eq!(eff.simon_time_mult, 1_134_000);
    match &s.state {
        SoloState::InSimon { spec, reveal_until, reveals_left, .. } => {
            assert_eq!(spec.length, 5);
            assert_eq!(*reveals_left, 0);
            // 550 * 1.134 = 623.7 -> 624 per symbol
            assert_eq!(*reveal_until, Some(624 * 5));
        }
        _ => panic!("expected the minigame"),
    }
}

#[test]
fn preview_times() {
    assert_eq!(simon_preview_ms(Risk::Low, 4, ONE), 3800);
    assert_eq!(simon_preview_ms(Risk::Hardcore, 1, ONE), 500);
    assert_eq!(simon_preview_ms(Risk::Low, 100, ONE), 12_000);
    assert_eq!(simon_preview_ms(Risk::Medium, usize::MAX, ONE), 12_000);
    assert_eq!(simon_preview_ms(Risk::Medium, 5, 1_300_000), 4875);
}

#[test]
fn keys_during_preview_are_ignored_then_sequence_wins() {
    let mut s = configured(CrimeMode::Standard, Risk::Low, &[]);
    s.start(0).expect("started");
    let seq = sequence(&s);
    assert_eq!(seq.len(), 4);
    assert!(!s.press_key(seq[0], 10));
    match &s.state {
        SoloState::InSimon { cursor, .. } => assert_eq!(*cursor, 0),
        _ => panic!(),
    }
    for (i, c) in seq.iter().enumerate() {
        assert!(s.press_key(c.to_ascii_lowercase(), 10_000 + i as u64));
    }
    assert_eq!(s.pending_result(), MinigameResult::Success);
    assert!(!s.press_key('A', 20_000));
    assert_eq!(s.pending_result(), MinigameResult::Success);
}

#[test]
fn wrong_key_loses() {
    let mut s = configured(CrimeMode::Standard, Risk::Hardcore, &[]);
    s.start(0).expect("started");
    let seq = sequence(&s);
    let wrong = if seq[0] == 'A' { 'B' } else { 'A' };
    assert!(s.press_key(wrong, 60_000));
    assert_eq!(s.pending_result(), MinigameResult::Fail);
    assert!(!s.reset());
    assert!(matches!(s.state, SoloState::InSimon { .. }));
}

#[test]
fn previews_are_limited() {
    let mut s = configured(CrimeMode::Standard, Risk::Low, &[]);
    s.start(0).expect("started");
    assert_eq!(s.reveal_sequence(100), RevealReply::StillShowing(3700));
    assert_eq!(s.reveal_sequence(4000), RevealReply::Started);
    s.show_sequence(20_000);
    match &s.state {
        SoloState::InSimon { reveal_until, reveals_left, .. } => {
            assert_eq!(*reveals_left, 0);
            assert_eq!(*reveal_until, Some(20_000 + 800 * 4));
        }
        _ => panic!(),
    }
    assert_eq!(s.reveal_sequence(30_000), RevealReply::NoneLeft);
    let mut c = SoloSession::new(2);
    assert_eq!(c.reveal_sequence(0), RevealReply::NotPlaying);
}

#[test]
fn resolution_is_recorded_and_reset_allowed() {
    let mut s = configured(CrimeMode::Standard, Risk::Medium, &[]);
    s.start(0).expect("started");
    let seq = sequence(&s);
    for c in &seq {
        s.press_key(*c, 100_000);
    }
    let cfg = extract_cfg(&s);
    let mg = s.pending_result();
    assert_eq!(mg, MinigameResult::Success);
    let before = PlayerProfile { user_id: 42, balance: 500, heat: 0, thief_skill: 10, pp: 4 };
    let (after, outcome) = resolve_solo_with(before, &cfg, mg, 0, 700);
    assert!(outcome.success);
    let persisted = s.finish_resolution(cfg, mg, before, after, outcome, 900, 1600);
    assert_eq!(persisted.balance, 1600);
    assert_eq!(persisted.pp, 5);
    match &s.state {
        SoloState::Resolved(v) => {
            assert_eq!(v.before.balance, 900);
            assert_eq!(v.after, persisted);
            assert_eq!(v.newly_unlocked, vec![ItemKey::ProGloves]);
            assert_eq!(v.outcome, outcome);
        }
        _ => panic!("expected the resolved view"),
    }
    assert_eq!(s.pending_result(), MinigameResult::Success);
    assert!(s.reset());
    assert!(matches!(s.state, SoloState::Config(_)));
    assert_eq!(s.base_cfg.minigame, MinigameKind::Qte);
}

#[test]
fn newly_unlocked_between_levels() {
    assert_eq!(newly_unlocked(4, 5), vec![ItemKey::ProGloves]);
    assert_eq!(newly_unlocked(5, 5), Vec::<ItemKey>::new());
    assert_eq!(
        newly_unlocked(0, 30),
        vec![ItemKey::ProGloves, ItemKey::Toolkit, ItemKey::SmokeGrenade, ItemKey::HackerLaptop, ItemKey::Adrenaline]
    );
    assert!(newly_unlocked(30, 0).is_empty());
    assert_eq!(required_pp(ItemKey::ProGloves), 5);
}

#[test]
fn labels_and_emoji() {
    assert_eq!(mode_label(CrimeMode::Ostrozny), "Ostrożny");
    assert_eq!(item_short_desc(ItemKey::Toolkit), "Bonus do nagrody / stabilniejszy łup.");
    assert_eq!(emoji_for_item(ItemKey::HackerLaptop), "💻");
    assert_eq!(emoji_for_risk(Risk::Hardcore), "🔴");
    assert_eq!(emoji_for_mode(CrimeMode::Hardcore), "🔥");
    assert_eq!(emoji_for_minigame(MinigameKind::Simon), "🧠");
}

#[test]
fn gauges() {
    assert_eq!(bar10(0), "▱▱▱▱▱▱▱▱▱▱");
    assert_eq!(bar10(1), "▰▱▱▱▱▱▱▱▱▱");
    assert_eq!(bar10(55), "▰▰▰▰▰▰▱▱▱▱");
    assert_eq!(bar10(250), "▰▰▰▰▰▰▰▰▰▰");
    assert_eq!(chip_step("Start", true), "`Start` ✅");
    assert_eq!(chip_step("Tryb", false), "`Tryb` ⬜");
    assert_eq!(bag_bar3(2, 3), "🎒 [▰▰▱] 2/3");
    assert_eq!(bag_bar3(7, 3), "🎒 [▰▰▰] 3/3");
    assert_eq!(progress_bar(2, 5), "[▰▰▰▰▱▱▱▱▱▱] 2/5");
    assert_eq!(progress_bar(9, 0), "[▰▰▰▰▰▰▰▰▰▰] 1/1");
    assert_eq!(progress_bar(0, 12), "[▱▱▱▱▱▱▱▱▱▱] 0/12");
}

#[test]
fn heat_summary_text() {
    let cold = heat_effects(CrimeMode::Standard, Risk::Medium, 0);
    assert_eq!(format_heat_summary(cold), "Szansa ×1.00 • Łup ×1.00 • QTE okno ×1.00");
    let hot = heat_effects(CrimeMode::Hardcore, Risk::Hardcore, 95);
    assert_eq!(
        format_heat_summary(hot),
        "Szansa ×0.16 • Łup ×0.40 • QTE okno ×0.05 • Simon +6 • +24s CD • Zasadzka 48%"
    );
    let odd = HeatEffects {
        chance_mult: 940_500,
        reward_mult: -20_000,
        qte_window_mult: 1_004_999,
        simon_seq_delta: -1,
        extra_cooldown_secs: 0,
        ambush_chance_pct: 0,
    };
    assert_eq!(format_heat_summary(odd), "Szansa ×0.94 • Łup ×-0.02 • QTE okno ×1.00 • Simon +-1");
    let spec = simon_spec_for(Risk::Low, 0);
    assert_eq!(spec.length, 4);
}

#[test]
fn stored_settings_restore() {
    let keys = vec!["smoke".to_string(), "rocket".to_string(), "laptop".to_string()];
    assert_eq!(
        tigrus_heist::keys::items_from_keys(&keys),
        vec![ItemKey::SmokeGrenade, ItemKey::HackerLaptop]
    );
    assert!(tigrus_heist::keys::items_from_keys(&[]).is_empty());
    let s = SoloSession::restored(8, Some(CrimeMode::Planowany), None, vec![ItemKey::Toolkit]);
    match &s.state {
        SoloState::Config(c) => {
            assert_eq!(c.mode, Some(CrimeMode::Planowany));
            assert_eq!(c.risk, None);
            assert_eq!(c.minigame, MinigameKind::Simon);
            assert_eq!(c.items, vec![ItemKey::Toolkit]);
        }
        _ => panic!("expected configuration"),
    }
}
