//! Balance and risk model: base success chance, reward ranges and the heat
//! escalation model, all pure functions of mode, risk and heat.

use vstd::prelude::*;
use crate::types::{clamp, round_div, CrimeMode, Risk, ONE};

verus! {

/// Base success chance of a risk tier, in percentage points.
pub open spec fn risk_base_chance(risk: Risk) -> int {
    match risk {
        Risk::Low => 62,
        Risk::Medium => 52,
        Risk::High => 42,
        Risk::Hardcore => 32,
    }
}

/// Additive bump that a mode applies to the base chance.
pub open spec fn mode_chance_bump(mode: CrimeMode) -> int {
    match mode {
        CrimeMode::Standard => 0,
        CrimeMode::Szybki => -3,
        CrimeMode::Ostrozny => 3,
        CrimeMode::Shadow => 2,
        CrimeMode::Hardcore => -6,
        CrimeMode::Ryzykowny => -4,
        CrimeMode::Planowany => 4,
        CrimeMode::Szalony => -8,
    }
}

/// Base success chance in percentage points: tier base plus mode bump,
/// limited to `[5, 95]`.
pub open spec fn base_chance_of(mode: CrimeMode, risk: Risk) -> int {
    clamp(risk_base_chance(risk) + mode_chance_bump(mode), 5, 95)
}

/// Base success chance in whole percentage points.
pub fn base_chance(mode: CrimeMode, risk: Risk) -> (r: i32)
    ensures
        r == base_chance_of(mode, risk),
{
    let r: i32 = match risk {
        Risk::Low => 62,
        Risk::Medium => 52,
        Risk::High => 42,
        Risk::Hardcore => 32,
    };
    let m: i32 = match mode {
        CrimeMode::Standard => 0,
        CrimeMode::Szybki => -3,
        CrimeMode::Ostrozny => 3,
        CrimeMode::Shadow => 2,
        CrimeMode::Hardcore => -6,
        CrimeMode::Ryzykowny => -4,
        CrimeMode::Planowany => 4,
        CrimeMode::Szalony => -8,
    };
    let c = r + m;
    if c < 5 {
        5
    } else if c > 95 {
        95
    } else {
        c
    }
}

/// Reward bounds of a risk tier before the mode bump.
pub open spec fn risk_reward_base(risk: Risk) -> (int, int) {
    match risk {
        Risk::Low => (300, 600),
        Risk::Medium => (600, 1200),
        Risk::High => (1200, 2400),
        Risk::Hardcore => (2400, 4200),
    }
}

/// Multiplicative reward bump of a mode, in percent.
pub open spec fn mode_reward_bump(mode: CrimeMode) -> int {
    match mode {
        CrimeMode::Planowany | CrimeMode::Shadow => 115,
        CrimeMode::Ostrozny => 105,
        CrimeMode::Standard => 100,
        CrimeMode::Ryzykowny => 110,
        CrimeMode::Szybki => 95,
        CrimeMode::Hardcore => 120,
        CrimeMode::Szalony => 125,
    }
}

/// Inclusive reward bounds: the tier's bounds scaled by the mode bump,
/// rounded down.
pub open spec fn reward_range_of(mode: CrimeMode, risk: Risk) -> (int, int) {
    let b = risk_reward_base(risk);
    let m = mode_reward_bump(mode);
    (b.0 * m / 100, b.1 * m / 100)
}

/// Largest reward any mode and tier can pay out.
pub const MAX_REWARD: i64 = 5250;

/// Inclusive currency bounds of a reward.
pub fn reward_range(mode: CrimeMode, risk: Risk) -> (r: (i64, i64))
    ensures
        r.0 == reward_range_of(mode, risk).0,
        r.1 == reward_range_of(mode, risk).1,
        0 < r.0 <= r.1 <= MAX_REWARD,
{
    let base: (i64, i64) = match risk {
        Risk::Low => (300, 600),
        Risk::Medium => (600, 1200),
        Risk::High => (1200, 2400),
        Risk::Hardcore => (2400, 4200),
    };
    let bump: i64 = match mode {
        CrimeMode::Planowany | CrimeMode::Shadow => 115,
        CrimeMode::Ostrozny => 105,
        CrimeMode::Standard => 100,
        CrimeMode::Ryzykowny => 110,
        CrimeMode::Szybki => 95,
        CrimeMode::Hardcore => 120,
        CrimeMode::Szalony => 125,
    };
    (base.0 * bump / 100, base.1 * bump / 100)
}

/// Heat that an attempt at a risk tier costs.
pub open spec fn heat_gain_of(risk: Risk) -> int {
    match risk {
        Risk::Low => 4,
        Risk::Medium => 7,
        Risk::High => 10,
        Risk::Hardcore => 14,
    }
}

/// Base heat cost of an attempt at `risk`.
pub fn heat_gain(risk: Risk) -> (r: i64)
    ensures
        r == heat_gain_of(risk),
{
    match risk {
        Risk::Low => 4,
        Risk::Medium => 7,
        Risk::High => 10,
        Risk::Hardcore => 14,
    }
}

/// Difficulty penalties that accumulated heat brings. Multipliers are in
/// millionths (`ONE` is no change; lower is harder).
#[derive(Debug, Clone, Copy, PartialEq, Eq, Structural)]
pub struct HeatEffects {
    pub chance_mult: i64,
    pub reward_mult: i64,
    pub qte_window_mult: i64,
    /// Extra symbols in the sequence check.
    pub simon_seq_delta: i32,
    pub extra_cooldown_secs: u64,
    pub ambush_chance_pct: u8,
}

/// Baseline penalties of the heat band that `heat` falls in (heat above 100
/// counts as 100).
pub open spec fn heat_band(heat: u32) -> HeatEffects {
    let h = if heat > 100 { 100 } else { heat };
    if h <= 24 {
        HeatEffects { chance_mult: 1_000_000, reward_mult: 1_000_000, qte_window_mult: 1_000_000,
            simon_seq_delta: 0, extra_cooldown_secs: 0, ambush_chance_pct: 0 }
    } else if h <= 49 {
        HeatEffects { chance_mult: 950_000, reward_mult: 950_000, qte_window_mult: 950_000,
            simon_seq_delta: 0, extra_cooldown_secs: 0, ambush_chance_pct: 0 }
    } else if h <= 74 {
        HeatEffects { chance_mult: 900_000, reward_mult: 900_000, qte_window_mult: 850_000,
            simon_seq_delta: 1, extra_cooldown_secs: 2, ambush_chance_pct: 0 }
    } else if h <= 89 {
        HeatEffects { chance_mult: 800_000, reward_mult: 850_000, qte_window_mult: 750_000,
            simon_seq_delta: 2, extra_cooldown_secs: 5, ambush_chance_pct: 0 }
    } else {
        HeatEffects { chance_mult: 650_000, reward_mult: 750_000, qte_window_mult: 600_000,
            simon_seq_delta: 3, extra_cooldown_secs: 10, ambush_chance_pct: 20 }
    }
}

fn base_heat_effects(heat: u32) -> (r: HeatEffects)
    ensures
        r == heat_band(heat),
{
    let h = if heat > 100 { 100 } else { heat };
    if h <= 24 {
        HeatEffects { chance_mult: 1_000_000, reward_mult: 1_000_000, qte_window_mult: 1_000_000,
            simon_seq_delta: 0, extra_cooldown_secs: 0, ambush_chance_pct: 0 }
    } else if h <= 49 {
        HeatEffects { chance_mult: 950_000, reward_mult: 950_000, qte_window_mult: 950_000,
            simon_seq_delta: 0, extra_cooldown_secs: 0, ambush_chance_pct: 0 }
    } else if h <= 74 {
        HeatEffects { chance_mult: 900_000, reward_mult: 900_000, qte_window_mult: 850_000,
            simon_seq_delta: 1, extra_cooldown_secs: 2, ambush_chance_pct: 0 }
    } else if h <= 89 {
        HeatEffects { chance_mult: 800_000, reward_mult: 850_000, qte_window_mult: 750_000,
            simon_seq_delta: 2, extra_cooldown_secs: 5, ambush_chance_pct: 0 }
    } else {
        HeatEffects { chance_mult: 650_000, reward_mult: 750_000, qte_window_mult: 600_000,
            simon_seq_delta: 3, extra_cooldown_secs: 10, ambush_chance_pct: 20 }
    }
}

/// How hard heat bites at a risk tier, in percent.
pub open spec fn risk_factor_of(r: Risk) -> int {
    match r {
        Risk::Low => 70,
        Risk::Medium => 100,
        Risk::High => 125,
        Risk::Hardcore => 150,
    }
}

fn risk_factor(r: Risk) -> (f: i64)
    ensures
        f == risk_factor_of(r),
{
    match r {
        Risk::Low => 70,
        Risk::Medium => 100,
        Risk::High => 125,
        Risk::Hardcore => 150,
    }
}

/// Severity scales of a mode, in percent: overall, for the sequence length,
/// and for the ambush chance.
#[derive(Debug, Clone, Copy, PartialEq, Eq, Structural)]
pub struct ModeScale {
    pub all: i64,
    pub simon: i64,
    pub ambush: i64,
}

pub open spec fn mode_scale_of(m: CrimeMode) -> ModeScale {
    match m {
        CrimeMode::Standard => ModeScale { all: 100, simon: 100, ambush: 100 },
        CrimeMode::Szybki => ModeScale { all: 110, simon: 100, ambush: 110 },
        CrimeMode::Ostrozny => ModeScale { all: 85, simon: 85, ambush: 85 },
        CrimeMode::Shadow => ModeScale { all: 90, simon: 90, ambush: 50 },
        CrimeMode::Hardcore => ModeScale { all: 160, simon: 130, ambush: 160 },
        CrimeMode::Ryzykowny => ModeScale { all: 125, simon: 115, ambush: 140 },
        CrimeMode::Planowany => ModeScale { all: 90, simon: 85, ambush: 90 },
        CrimeMode::Szalony => ModeScale { all: 140, simon: 125, ambush: 150 },
    }
}

fn mode_scale(m: CrimeMode) -> (s: ModeScale)
    ensures
        s == mode_scale_of(m),
{
    match m {
        CrimeMode::Standard => ModeScale { all: 100, simon: 100, ambush: 100 },
        CrimeMode::Szybki => ModeScale { all: 110, simon: 100, ambush: 110 },
        CrimeMode::Ostrozny => ModeScale { all: 85, simon: 85, ambush: 85 },
        CrimeMode::Shadow => ModeScale { all: 90, simon: 90, ambush: 50 },
        CrimeMode::Hardcore => ModeScale { all: 160, simon: 130, ambush: 160 },
        CrimeMode::Ryzykowny => ModeScale { all: 125, simon: 115, ambush: 140 },
        CrimeMode::Planowany => ModeScale { all: 90, simon: 85, ambush: 90 },
        CrimeMode::Szalony => ModeScale { all: 140, simon: 125, ambush: 150 },
    }
}

/// Scales the penalty `1 - base` of a multiplier (millionths) by a risk
/// factor and a mode factor (percent): the scaled penalty is limited to
/// `[0, 0.95]` and the resulting multiplier to `[0.05, 1.25]`.
pub open spec fn mix_mult_of(base: int, rf: int, ms: int) -> int {
    let penalty = if ONE - base > 0 { ONE - base } else { 0 };
    let scaled = clamp(penalty * rf * ms / 10_000, 0, 950_000);
    clamp(ONE - scaled, 50_000, 1_250_000)
}

fn mix_mult(base: i64, rf: i64, ms: i64) -> (r: i64)
    requires
        0 <= base <= ONE,
        0 <= rf <= 1000,
        0 <= ms <= 1000,
    ensures
        r == mix_mult_of(base as int, rf as int, ms as int),
{
    let penalty = ONE - base;
    assert(0 <= penalty * rf <= 1_000_000 * 1000 && penalty * rf * ms <= 1_000_000 * 1000 * 1000)
        by (nonlinear_arith)
        requires
            0 <= penalty <= 1_000_000,
            0 <= rf <= 1000,
            0 <= ms <= 1000,
    ;
    assert(0 <= penalty * rf * ms) by (nonlinear_arith)
        requires
            0 <= penalty,
            0 <= rf,
            0 <= ms,
    ;
    let raw = penalty * rf * ms / 10_000;
    let scaled = if raw > 950_000 { 950_000 } else { raw };
    let m = ONE - scaled;
    if m < 50_000 {
        50_000
    } else if m > 1_250_000 {
        1_250_000
    } else {
        m
    }
}

/// `base * rf * ms / 10_000` rounded to the nearest integer, for the count
/// penalties of a heat band.
pub open spec fn scale_count(base: int, rf: int, ms: int) -> int {
    round_div(base * rf * ms, 10_000)
}

/// Heat penalties after scaling by risk tier and mode.
pub open spec fn heat_effects_of(mode: CrimeMode, risk: Risk, heat: u32) -> HeatEffects {
    let b = heat_band(heat);
    let rf = risk_factor_of(risk);
    let ms = mode_scale_of(mode);
    let cd = scale_count(b.extra_cooldown_secs as int, rf, ms.all as int);
    let amb = scale_count(b.ambush_chance_pct as int, rf, ms.ambush as int);
    HeatEffects {
        chance_mult: mix_mult_of(b.chance_mult as int, rf, ms.all as int) as i64,
        reward_mult: mix_mult_of(b.reward_mult as int, rf, ms.all as int) as i64,
        qte_window_mult: mix_mult_of(b.qte_window_mult as int, rf, ms.all as int) as i64,
        simon_seq_delta: scale_count(b.simon_seq_delta as int, rf, ms.simon as int) as i32,
        extra_cooldown_secs: (if cd > 60 { 60 } else { cd }) as u64,
        ambush_chance_pct: (if amb > 100 { 100 } else { amb }) as u8,
    }
}

fn scaled_count(base: i64, rf: i64, ms: i64) -> (r: i64)
    requires
        0 <= base <= 100,
        0 <= rf <= 1000,
        0 <= ms <= 1000,
    ensures
        r == scale_count(base as int, rf as int, ms as int),
        0 <= r,
{
    assert(0 <= base * rf <= 100 * 1000 && 0 <= base * rf * ms <= 100 * 1000 * 1000)
        by (nonlinear_arith)
        requires
            0 <= base <= 100,
            0 <= rf <= 1000,
            0 <= ms <= 1000,
    ;
    (base * rf * ms + 5_000) / 10_000
}

/// Heat escalation: the heat band's baseline penalties, compounded by the
/// risk tier and the mode.
pub fn heat_effects(mode: CrimeMode, risk: Risk, heat: u32) -> (r: HeatEffects)
    ensures
        r == heat_effects_of(mode, risk, heat),
        50_000 <= r.chance_mult <= 1_250_000,
        50_000 <= r.reward_mult <= 1_250_000,
        50_000 <= r.qte_window_mult <= 1_250_000,
        r.extra_cooldown_secs <= 60,
        r.ambush_chance_pct <= 100,
{
    let base = base_heat_effects(heat);
    let rf = risk_factor(risk);
    let ms = mode_scale(mode);
    let delta = scaled_count(base.simon_seq_delta as i64, rf, ms.simon);
    let cd = scaled_count(base.extra_cooldown_secs as i64, rf, ms.all);
    let amb = scaled_count(base.ambush_chance_pct as i64, rf, ms.ambush);
    HeatEffects {
        chance_mult: mix_mult(base.chance_mult, rf, ms.all),
        reward_mult: mix_mult(base.reward_mult, rf, ms.all),
        qte_window_mult: mix_mult(base.qte_window_mult, rf, ms.all),
        simon_seq_delta: delta as i32,
        extra_cooldown_secs: (if cd > 60 { 60 } else { cd }) as u64,
        ambush_chance_pct: (if amb > 100 { 100 } else { amb }) as u8,
    }
}

/// For a fixed mode the base chance strictly falls as the risk tier rises
/// (Low > Medium > High > Hardcore), and every base chance lies in [5, 95].
pub proof fn lemma_base_chance_falls_with_risk(mode: CrimeMode)
    ensures
        base_chance_of(mode, Risk::Low) > base_chance_of(mode, Risk::Medium),
        base_chance_of(mode, Risk::Medium) > base_chance_of(mode, Risk::High),
        base_chance_of(mode, Risk::High) > base_chance_of(mode, Risk::Hardcore),
        forall|r: Risk| 5 <= #[trigger] base_chance_of(mode, r) <= 95,
{
}

/// Every reward range is ordered: its lower bound never exceeds its upper
/// bound.
pub proof fn lemma_reward_range_ordered(mode: CrimeMode, risk: Risk)
    ensures
        reward_range_of(mode, risk).0 <= reward_range_of(mode, risk).1,
{
}

} // verus!
