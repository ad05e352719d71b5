//! Resolution of a solo heist: success chance, the roll, reward or penalty,
//! heat, and the player's progression.
//!
//! Heat is charged here as an output only; the escalation penalties of
//! `balance::heat_effects` are not read back into the chance or the reward.

use vstd::prelude::*;
use crate::balance::{base_chance, base_chance_of, heat_gain, heat_gain_of, reward_range, reward_range_of, MAX_REWARD};
use crate::entropy::random_in;
use crate::items::{aggregate, aggregate_of, ItemEffects};
use crate::types::{clamp, round_div, HeistOutcome, MinigameResult, PlayerProfile, SoloHeistConfig, CrimeMode, Risk, ONE, SKILL_CAP};

verus! {

/// Chances and rolls are in basis points: hundredths of a percentage point,
/// so a roll is a draw from `0..CHANCE_SCALE`.
pub const CHANCE_SCALE: i64 = 10_000;

/// Largest heat one resolution can add.
pub const MAX_HEAT_DELTA: i64 = 20;

/// Contribution of the minigame to the success chance, in basis points:
/// +18 points for a success, a near miss from +12 points down to 0 as its
/// distance grows to 300, -22 points for a failure, -10 when not played.
pub open spec fn minigame_bonus(mg: MinigameResult) -> int {
    match mg {
        MinigameResult::Success => 1800,
        MinigameResult::Partial(diff) => clamp(1200 - 4 * diff, 0, 1200),
        MinigameResult::Fail => -2200,
        MinigameResult::NotPlayed => -1000,
    }
}

/// Success chance in basis points: base chance, plus up to 15 points of
/// skill (linear in `thief_skill / 50`), plus the items' bonus, plus the
/// minigame's contribution, limited to `[1, 99]` points.
pub open spec fn success_chance_of(profile: PlayerProfile, cfg: SoloHeistConfig, mg: MinigameResult) -> int {
    let e = aggregate_of(cfg.items@);
    clamp(
        base_chance_of(cfg.mode_or_default(), cfg.risk_or_default()) * 100
            + profile.thief_skill * 30
            + e.success_pp_bonus / 10_000
            + minigame_bonus(mg),
        100,
        9900,
    )
}

/// Heat an attempt costs: the tier's heat gain scaled by the items' heat
/// multiplier, rounded to the nearest integer.
pub open spec fn heat_cost_of(risk: Risk, e: ItemEffects) -> int {
    round_div(heat_gain_of(risk) * e.heat_mult, ONE as int)
}

/// Penalty of a failure: 35% of the drawn reward scaled by the items' fail
/// penalty multiplier, rounded to the nearest integer.
pub open spec fn fail_penalty_of(reward: int, e: ItemEffects) -> int {
    round_div(reward * 35 * e.fail_penalty_mult, 100 * ONE)
}

/// Room in the profile's counters for one more resolution.
pub open spec fn has_room(p: PlayerProfile) -> bool {
    &&& i64::MIN + MAX_REWARD <= p.balance <= i64::MAX - MAX_REWARD
    &&& p.heat <= i64::MAX - MAX_HEAT_DELTA
}

/// The reward draw is one that the configuration's reward range allows.
pub open spec fn reward_in_range(cfg: SoloHeistConfig, reward: i64) -> bool {
    let range = reward_range_of(cfg.mode_or_default(), cfg.risk_or_default());
    range.0 <= reward <= range.1
}

/// New profile and outcome of a resolution, given the roll and the reward
/// draw.
pub open spec fn resolved_of(
    profile: PlayerProfile,
    cfg: SoloHeistConfig,
    mg: MinigameResult,
    roll: i64,
    reward: i64,
) -> (PlayerProfile, HeistOutcome) {
    let e = aggregate_of(cfg.items@);
    let success = roll < success_chance_of(profile, cfg, mg);
    let heat = heat_cost_of(cfg.risk_or_default(), e);
    let amount = if success { reward as int } else { -fail_penalty_of(reward as int, e) };
    let heat_delta = if success { heat } else { heat + 2 };
    let after = PlayerProfile {
        balance: (profile.balance + amount) as i64,
        heat: (profile.heat + heat_delta) as i64,
        thief_skill: (if profile.thief_skill < SKILL_CAP { profile.thief_skill + 1 } else { profile.thief_skill as int }) as u32,
        pp: (if success && profile.pp < u32::MAX { profile.pp + 1 } else { profile.pp as int }) as u32,
        ..profile
    };
    (after, HeistOutcome { success, amount_base: amount as i64, amount_final: amount as i64, heat_delta: heat_delta as i64 })
}

fn minigame_bonus_bp(mg: MinigameResult) -> (r: i64)
    ensures
        r == minigame_bonus(mg),
{
    match mg {
        MinigameResult::Success => 1800,
        MinigameResult::Partial(diff) => {
            let b = 1200 - 4 * (diff as i64);
            if b < 0 {
                0
            } else if b > 1200 {
                1200
            } else {
                b
            }
        },
        MinigameResult::Fail => -2200,
        MinigameResult::NotPlayed => -1000,
    }
}

/// Success chance of an attempt, in basis points.
pub fn success_chance(profile: &PlayerProfile, cfg: &SoloHeistConfig, mg: MinigameResult) -> (r: i64)
    ensures
        r == success_chance_of(*profile, *cfg, mg),
        100 <= r <= 9900,
{
    let mode = match cfg.mode {
        Some(m) => m,
        None => CrimeMode::Standard,
    };
    let risk = match cfg.risk {
        Some(r) => r,
        None => Risk::Medium,
    };
    let effects = aggregate(cfg.items.as_slice());
    let c = base_chance(mode, risk) as i64 * 100 + profile.thief_skill as i64 * 30
        + effects.success_pp_bonus / 10_000 + minigame_bonus_bp(mg);
    if c < 100 {
        100
    } else if c > 9900 {
        9900
    } else {
        c
    }
}

/// Resolves a heist with the given draws: `roll` from `0..CHANCE_SCALE`
/// decides success (`roll` below the chance), `reward` from the reward range
/// is paid on success and sets the penalty on failure.
pub fn resolve_solo_with(
    profile: PlayerProfile,
    cfg: &SoloHeistConfig,
    mg: MinigameResult,
    roll: i64,
    reward: i64,
) -> (r: (PlayerProfile, HeistOutcome))
    requires
        0 <= roll < CHANCE_SCALE,
        reward_in_range(*cfg, reward),
        has_room(profile),
    ensures
        r == resolved_of(profile, *cfg, mg, roll, reward),
{
    let mut profile = profile;
    let risk = match cfg.risk {
        Some(r) => r,
        None => Risk::Medium,
    };
    let effects = aggregate(cfg.items.as_slice());
    let chance = success_chance(&profile, cfg, mg);
    let success = roll < chance;

    assert(0 <= heat_gain_of(risk) * effects.heat_mult <= 14 * 1_200_000) by (nonlinear_arith)
        requires
            0 <= heat_gain_of(risk) <= 14,
            800_000 <= effects.heat_mult <= 1_200_000,
    ;
    let heat = (heat_gain(risk) * effects.heat_mult + ONE / 2) / ONE;
    assert(heat <= 17);

    let (amount, heat_delta) = if success {
        (reward, heat)
    } else {
        assert(0 <= reward * 35 <= MAX_REWARD * 35 && 0 <= reward * 35 * effects.fail_penalty_mult <= MAX_REWARD * 35 * 1_200_000)
            by (nonlinear_arith)
            requires
                0 <= reward <= MAX_REWARD,
                700_000 <= effects.fail_penalty_mult <= 1_200_000,
        ;
        let penalty = (reward * 35 * effects.fail_penalty_mult + 50 * ONE) / (100 * ONE);
        assert(penalty <= MAX_REWARD);
        (-penalty, heat + 2)
    };

    profile.balance = profile.balance + amount;
    profile.heat = profile.heat + heat_delta;
    if profile.thief_skill < SKILL_CAP {
        profile.thief_skill = profile.thief_skill + 1;
    }
    if success {
        profile.pp = profile.pp.saturating_add(1);
    }
    (profile, HeistOutcome { success, amount_base: amount, amount_final: amount, heat_delta })
}

/// Resolves a heist, drawing the roll and the reward from the thread-local
/// generator. The result is the resolution for some roll in
/// `0..CHANCE_SCALE` and some reward in the configuration's range.
pub fn resolve_solo(profile: PlayerProfile, cfg: &SoloHeistConfig, mg: MinigameResult) -> (r: (PlayerProfile, HeistOutcome))
    requires
        has_room(profile),
    ensures
        exists|roll: i64, reward: i64|
            0 <= roll < CHANCE_SCALE && reward_in_range(*cfg, reward) && r == resolved_of(profile, *cfg, mg, roll, reward),
{
    let mode = match cfg.mode {
        Some(m) => m,
        None => CrimeMode::Standard,
    };
    let risk = match cfg.risk {
        Some(r) => r,
        None => Risk::Medium,
    };
    let roll = random_in(0, CHANCE_SCALE - 1);
    let (min_r, max_r) = reward_range(mode, risk);
    let reward = random_in(min_r, max_r);
    resolve_solo_with(profile, cfg, mg, roll, reward)
}

/// A resolution never lowers thief skill or progress points; skill rises by
/// one up to its cap, and progress points rise by exactly one if and only if
/// the heist succeeded (unless they already sit at the `u32` ceiling).
pub proof fn lemma_progress_never_falls(
    profile: PlayerProfile,
    cfg: SoloHeistConfig,
    mg: MinigameResult,
    roll: i64,
    reward: i64,
)
    ensures
        ({
            let (after, outcome) = resolved_of(profile, cfg, mg, roll, reward);
            &&& after.thief_skill >= profile.thief_skill
            &&& after.pp >= profile.pp
            &&& profile.pp < u32::MAX ==> (after.pp == profile.pp + 1 <==> outcome.success)
            &&& !outcome.success ==> after.pp == profile.pp
        }),
{
}

/// All else equal, a won minigame gives a strictly higher success chance
/// than a lost one, so any roll that succeeds after a lost minigame also
/// succeeds after a won one.
pub proof fn lemma_minigame_win_beats_loss(
    profile: PlayerProfile,
    cfg: SoloHeistConfig,
    roll: i64,
    reward: i64,
)
    requires
        profile.thief_skill <= SKILL_CAP,
    ensures
        success_chance_of(profile, cfg, MinigameResult::Success) > success_chance_of(profile, cfg, MinigameResult::Fail),
        resolved_of(profile, cfg, MinigameResult::Fail, roll, reward).1.success
            ==> resolved_of(profile, cfg, MinigameResult::Success, roll, reward).1.success,
{
    let e = aggregate_of(cfg.items@);
    crate::items::lemma_aggregate_in_bands(cfg.items@, e);
    crate::balance::lemma_base_chance_falls_with_risk(cfg.mode_or_default());
}

/// Resolution is deterministic given its draws: the same profile, loadout,
/// mode, risk, minigame result, roll and reward always give the same new
/// profile and outcome.
pub proof fn lemma_resolution_deterministic(
    p1: PlayerProfile,
    p2: PlayerProfile,
    c1: SoloHeistConfig,
    c2: SoloHeistConfig,
    mg: MinigameResult,
    roll: i64,
    reward: i64,
)
    requires
        p1 == p2,
        c1.mode == c2.mode,
        c1.risk == c2.risk,
        c1.items@ == c2.items@,
    ensures
        resolved_of(p1, c1, mg, roll, reward) == resolved_of(p2, c2, mg, roll, reward),
{
}

} // verus!
