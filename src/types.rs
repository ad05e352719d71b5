//! Shared vocabulary of the heist engine.

use vstd::prelude::*;

verus! {

/// Fixed-point unit: fractional quantities (multipliers, shares) are held
/// as integer millionths, so `ONE` stands for 1.0.
pub const ONE: i64 = 1_000_000;

/// `x` limited to `[lo, hi]`.
pub open spec fn clamp(x: int, lo: int, hi: int) -> int {
    if x < lo {
        lo
    } else if x > hi {
        hi
    } else {
        x
    }
}

/// `n / d` rounded to the nearest integer, halves away from zero, for `n >= 0`.
pub open spec fn round_div(n: int, d: int) -> int {
    (n + d / 2) / d
}

/// Play style of a heist; each carries a fixed risk/reward skew.
#[derive(Debug, Clone, Copy, PartialEq, Eq, Structural)]
pub enum CrimeMode {
    Standard,
    Szybki,
    Ostrozny,
    Shadow,
    Hardcore,
    Ryzykowny,
    Planowany,
    Szalony,
}

/// Ordered risk tiers, from the safest to the most dangerous.
#[derive(Debug, Clone, Copy, PartialEq, Eq, Structural)]
pub enum Risk {
    Low,
    Medium,
    High,
    Hardcore,
}

/// Which skill check a heist runs.
#[derive(Debug, Clone, Copy, PartialEq, Eq, Structural)]
pub enum MinigameKind {
    Qte,
    Simon,
}

/// Scored outcome of a skill check.
#[derive(Debug, Clone, Copy, PartialEq, Eq, Structural)]
pub enum MinigameResult {
    NotPlayed,
    Success,
    /// A near miss; the payload is the distance from the ideal (milliseconds
    /// for the reaction check), smaller being better.
    Partial(i32),
    Fail,
}

/// Keys of the fixed item catalog.
#[derive(Debug, Clone, Copy, PartialEq, Eq, Hash, Structural)]
pub enum ItemKey {
    HackerLaptop,
    ProGloves,
    Toolkit,
    Adrenaline,
    SmokeGrenade,
    LockpickSet,
}

/// Input of one heist attempt. `None` for mode or risk means "use the
/// default" (Standard / Medium).
#[derive(Debug, Clone)]
pub struct SoloHeistConfig {
    pub mode: Option<CrimeMode>,
    pub risk: Option<Risk>,
    pub minigame: MinigameKind,
    pub items: Vec<ItemKey>,
}

impl SoloHeistConfig {
    /// The mode a heist actually runs with.
    pub open spec fn mode_or_default(&self) -> CrimeMode {
        match self.mode {
            Some(m) => m,
            None => CrimeMode::Standard,
        }
    }

    /// The risk tier a heist actually runs with.
    pub open spec fn risk_or_default(&self) -> Risk {
        match self.risk {
            Some(r) => r,
            None => Risk::Medium,
        }
    }

    /// A field-by-field copy.
    pub fn copied(&self) -> (r: SoloHeistConfig)
        ensures
            r.mode == self.mode,
            r.risk == self.risk,
            r.minigame == self.minigame,
            r.items@ == self.items@,
    {
        let mut items: Vec<ItemKey> = Vec::new();
        let mut i: usize = 0;
        while i < self.items.len()
            invariant
                i <= self.items.len(),
                items@ == self.items@.take(i as int),
            decreases self.items.len() - i,
        {
            items.push(self.items[i]);
            i += 1;
            assert(items@ =~= self.items@.take(i as int));
        }
        assert(items@ =~= self.items@);
        SoloHeistConfig { mode: self.mode, risk: self.risk, minigame: self.minigame, items }
    }
}

impl Default for SoloHeistConfig {
    fn default() -> (r: Self)
        ensures
            r.mode.is_none(),
            r.risk.is_none(),
            r.minigame == MinigameKind::Qte,
            r.items@.len() == 0,
    {
        SoloHeistConfig { mode: None, risk: None, minigame: MinigameKind::Qte, items: Vec::new() }
    }
}

/// Highest thief skill a player can reach.
pub const SKILL_CAP: u32 = 50;

/// Durable per-player record.
#[derive(Debug, Clone, Copy, PartialEq, Eq, Structural)]
pub struct PlayerProfile {
    pub user_id: u64,
    /// Currency accumulator; may go negative inside the engine.
    pub balance: i64,
    /// Suspicion level.
    pub heat: i64,
    /// Competence score, capped at `SKILL_CAP`.
    pub thief_skill: u32,
    /// Progress points; only ever grow, and gate item unlocks.
    pub pp: u32,
}

impl PlayerProfile {
    /// The profile a new player starts with.
    pub open spec fn fresh(user_id: u64) -> PlayerProfile {
        PlayerProfile { user_id, balance: 0, heat: 0, thief_skill: 5, pp: 0 }
    }

    /// A fresh profile for `user_id`: skill 5, everything else zero.
    pub fn for_user(user_id: u64) -> (r: PlayerProfile)
        ensures
            r == PlayerProfile::fresh(user_id),
    {
        PlayerProfile { user_id, balance: 0, heat: 0, thief_skill: 5, pp: 0 }
    }
}

impl Default for PlayerProfile {
    fn default() -> (r: Self)
        ensures
            r == PlayerProfile::fresh(0),
    {
        PlayerProfile::for_user(0)
    }
}

/// Result of one resolution.
#[derive(Debug, Clone, Copy, PartialEq, Eq, Structural)]
pub struct HeistOutcome {
    pub success: bool,
    /// Amount before any adjustment.
    pub amount_base: i64,
    /// Signed delta applied to the balance.
    pub amount_final: i64,
    /// Signed delta applied to heat.
    pub heat_delta: i64,
}

/// Parameters of the reaction-timing check.
#[derive(Debug, Clone, Copy, PartialEq, Eq, Structural)]
pub struct QteSpec {
    pub target_ms: i32,
    pub window_ms: i32,
}

/// Parameters of the sequence-reproduction check.
#[derive(Debug, Clone, Copy, PartialEq, Eq)]
pub struct SimonSpec {
    pub length: usize,
    pub alphabet: [char; 4],
}

} // verus!
