//! Per-player heist session: configuration, the sequence minigame and the
//! resolved view, as a state machine driven by interface events. The caller
//! performs the outside work (clock, storage, rendering) and feeds events in.

use vstd::prelude::*;
use crate::items::{aggregate, aggregate_of, available_items, required_pp, required_pp_of, catalog_of};
use crate::minigames::{check_simon_step, gen_simon_seq, simon_spec_for, simon_len_of, simon_alphabet, ascii_upper};
use crate::types::{
    clamp, round_div, HeistOutcome, ItemKey, MinigameKind, MinigameResult, PlayerProfile, Risk, SimonSpec,
    SoloHeistConfig, ONE,
};

verus! {

/// What a resolved heist shows: its outcome, what it was played with, and
/// the profile before and after.
#[derive(Debug, Clone)]
pub struct ResolvedView {
    pub outcome: HeistOutcome,
    pub cfg: SoloHeistConfig,
    pub mg: MinigameResult,
    pub before: PlayerProfile,
    pub after: PlayerProfile,
    pub newly_unlocked: Vec<ItemKey>,
}

/// Where a session stands. Instants are milliseconds on the caller's
/// monotonic clock.
#[derive(Debug, Clone)]
pub enum SoloState {
    Config(SoloHeistConfig),
    InSimon {
        spec: SimonSpec,
        seq: Vec<char>,
        cursor: usize,
        result: Option<MinigameResult>,
        reveal_until: Option<u64>,
        reveals_left: u8,
    },
    Resolved(ResolvedView),
}

/// One player's heist session.
#[derive(Debug, Clone)]
pub struct SoloSession {
    pub user_id: u64,
    pub state: SoloState,
    /// Configuration snapshot taken when the minigame started.
    pub base_cfg: SoloHeistConfig,
}

/// Longest sequence preview, in milliseconds.
pub const MAX_PREVIEW_MS: u64 = 12_000;

/// Shortest sequence preview, in milliseconds.
pub const MIN_PREVIEW_MS: u64 = 500;

/// Preview time per symbol of the quick reveal, in milliseconds.
pub const SHOW_MS_PER_SYMBOL: u64 = 800;

/// Two configurations that agree field by field.
pub open spec fn same_cfg(a: SoloHeistConfig, b: SoloHeistConfig) -> bool {
    &&& a.mode == b.mode
    &&& a.risk == b.risk
    &&& a.minigame == b.minigame
    &&& a.items@ == b.items@
}

/// The configuration a new session starts from.
pub open spec fn is_default_cfg(c: SoloHeistConfig) -> bool {
    &&& c.mode.is_none()
    &&& c.risk.is_none()
    &&& c.minigame == MinigameKind::Qte
    &&& c.items@.len() == 0
}

/// Preview time per symbol at a risk tier, in milliseconds.
pub open spec fn preview_per_symbol(risk: Risk) -> int {
    match risk {
        Risk::Low => 950,
        Risk::Medium => 750,
        Risk::High => 550,
        Risk::Hardcore => 380,
    }
}

/// Preview time of a sequence of `len` symbols: the tier's time per symbol,
/// scaled by `time_mult` (millionths) and rounded, times the length, limited
/// to `[500, 12000]` ms.
pub open spec fn preview_ms_of(risk: Risk, len: int, time_mult: int) -> int {
    let per = round_div(preview_per_symbol(risk) * time_mult, ONE as int);
    clamp(per * len, MIN_PREVIEW_MS as int, MAX_PREVIEW_MS as int)
}

/// How many extra previews a tier allows.
pub open spec fn reveals_for(risk: Risk) -> u8 {
    match risk {
        Risk::Low => 2,
        Risk::Medium => 1,
        _ => 0,
    }
}

/// How long the sequence is shown at the start of the minigame.
pub fn simon_preview_ms(risk: Risk, len: usize, time_mult: i64) -> (r: u64)
    requires
        0 <= time_mult <= i64::MAX / 1000,
    ensures
        r == preview_ms_of(risk, len as int, time_mult as int),
{
    let per_char: i64 = match risk {
        Risk::Low => 950,
        Risk::Medium => 750,
        Risk::High => 550,
        Risk::Hardcore => 380,
    };
    assert(0 <= per_char * time_mult <= 1000 * (i64::MAX / 1000)) by (nonlinear_arith)
        requires
            0 <= per_char <= 1000,
            0 <= time_mult <= i64::MAX / 1000,
    ;
    let base = ((per_char * time_mult + ONE / 2) / ONE) as u64;
    let n = len as u64;
    let total: u64 = if n > 0 && base > u64::MAX / n {
        proof {
            assert(base as int * n as int > u64::MAX) by (nonlinear_arith)
                requires
                    n > 0,
                    base > u64::MAX / n,
            ;
        }
        u64::MAX
    } else {
        proof {
            assert(base as int * n as int <= u64::MAX) by (nonlinear_arith)
                requires
                    n == 0 || base <= u64::MAX / n,
            ;
        }
        base * n
    };
    if total < MIN_PREVIEW_MS {
        MIN_PREVIEW_MS
    } else if total > MAX_PREVIEW_MS {
        MAX_PREVIEW_MS
    } else {
        total
    }
}

/// Answer to a request for another preview of the sequence.
#[derive(Debug, Clone, Copy, PartialEq, Eq, Structural)]
pub enum RevealReply {
    /// A preview started; it lasts until the new `reveal_until`.
    Started,
    /// A preview is already running, for this many more milliseconds.
    StillShowing(u64),
    /// No previews are left.
    NoneLeft,
    /// The session is not in the minigame.
    NotPlaying,
}

impl SoloSession {
    /// Invariant of a session: in the minigame, the sequence has the spec's
    /// length, between 3 and 8, and the cursor stays within it.
    pub open spec fn wf(&self) -> bool {
        match self.state {
            SoloState::InSimon { spec, seq, cursor, .. } => {
                &&& seq@.len() == spec.length
                &&& 3 <= spec.length <= 8
                &&& cursor <= seq@.len()
            },
            _ => true,
        }
    }

    /// The configuration a resolution uses: the one being edited, or the
    /// snapshot taken at the start of the minigame.
    pub open spec fn active_cfg(&self) -> SoloHeistConfig {
        match self.state {
            SoloState::Config(c) => c,
            _ => self.base_cfg,
        }
    }

    /// A new session in configuration, with default settings.
    pub fn new(user_id: u64) -> (r: SoloSession)
        ensures
            r.user_id == user_id,
            r.state matches SoloState::Config(c) && is_default_cfg(c),
            is_default_cfg(r.base_cfg),
            r.wf(),
    {
        SoloSession { user_id, state: SoloState::Config(SoloHeistConfig::default()), base_cfg: SoloHeistConfig::default() }
    }

    /// A new session in configuration, restored from saved settings; the
    /// solo flow always plays the sequence check.
    pub fn restored(user_id: u64, mode: Option<crate::types::CrimeMode>, risk: Option<Risk>, items: Vec<ItemKey>) -> (r: SoloSession)
        ensures
            r.user_id == user_id,
            r.state matches SoloState::Config(c) && c.mode == mode && c.risk == risk
                && c.minigame == MinigameKind::Simon && c.items@ == items@,
            is_default_cfg(r.base_cfg),
            r.wf(),
    {
        let cfg = SoloHeistConfig { mode, risk, minigame: MinigameKind::Simon, items };
        SoloSession { user_id, state: SoloState::Config(cfg), base_cfg: SoloHeistConfig::default() }
    }
}

/// A copy of the configuration a resolution of `s` uses.
pub fn extract_cfg(s: &SoloSession) -> (r: SoloHeistConfig)
    ensures
        same_cfg(r, s.active_cfg()),
{
    match &s.state {
        SoloState::Config(cfg) => cfg.copied(),
        _ => s.base_cfg.copied(),
    }
}

impl SoloSession {
    /// Sets the mode while configuring; returns the configuration to store,
    /// or `None` (and changes nothing) in any other state.
    pub fn choose_mode(&mut self, m: crate::types::CrimeMode) -> (saved: Option<SoloHeistConfig>)
        ensures
            final(self).user_id == old(self).user_id,
            final(self).base_cfg == old(self).base_cfg,
            match old(self).state {
                SoloState::Config(c) => {
                    &&& final(self).state matches SoloState::Config(n) && n.mode == Some(m)
                        && n.risk == c.risk && n.minigame == c.minigame && n.items@ == c.items@
                    &&& saved matches Some(k) && same_cfg(k, final(self).active_cfg())
                },
                _ => *final(self) == *old(self) && saved.is_none(),
            },
            old(self).wf() ==> final(self).wf(),
    {
        match &mut self.state {
            SoloState::Config(cfg) => {
                cfg.mode = Some(m);
                Some(cfg.copied())
            },
            _ => None,
        }
    }

    /// Sets the risk tier while configuring; returns the configuration to
    /// store, or `None` (and changes nothing) in any other state.
    pub fn choose_risk(&mut self, r: Risk) -> (saved: Option<SoloHeistConfig>)
        ensures
            final(self).user_id == old(self).user_id,
            final(self).base_cfg == old(self).base_cfg,
            match old(self).state {
                SoloState::Config(c) => {
                    &&& final(self).state matches SoloState::Config(n) && n.risk == Some(r)
                        && n.mode == c.mode && n.minigame == c.minigame && n.items@ == c.items@
                    &&& saved matches Some(k) && same_cfg(k, final(self).active_cfg())
                },
                _ => *final(self) == *old(self) && saved.is_none(),
            },
            old(self).wf() ==> final(self).wf(),
    {
        match &mut self.state {
            SoloState::Config(cfg) => {
                cfg.risk = Some(r);
                Some(cfg.copied())
            },
            _ => None,
        }
    }
}

/// The loadout kept from `picks`: in order, the picks unlocked at `pp`, at
/// most `room` of them.
pub open spec fn keep_unlocked(picks: Seq<ItemKey>, pp: u32, room: nat) -> Seq<ItemKey>
    decreases picks.len(),
{
    if picks.len() == 0 || room == 0 {
        Seq::empty()
    } else if required_pp_of(picks[0]) <= pp {
        seq![picks[0]] + keep_unlocked(picks.drop_first(), pp, (room - 1) as nat)
    } else {
        keep_unlocked(picks.drop_first(), pp, room)
    }
}

/// Largest loadout.
pub const MAX_LOADOUT: usize = 3;

/// The picks of `picks` that are unlocked at `pp`, in order, at most three.
pub fn pick_loadout(picks: &[ItemKey], pp: u32) -> (r: Vec<ItemKey>)
    ensures
        r@ == keep_unlocked(picks@, pp, MAX_LOADOUT as nat),
        r@.len() <= MAX_LOADOUT,
{
    let mut r: Vec<ItemKey> = Vec::new();
    let mut i: usize = 0;
    assert(picks@.skip(0) =~= picks@);
    assert(Seq::<ItemKey>::empty() + keep_unlocked(picks@, pp, MAX_LOADOUT as nat) =~= keep_unlocked(picks@, pp, MAX_LOADOUT as nat));
    while i < picks.len() && r.len() < MAX_LOADOUT
        invariant
            i <= picks@.len(),
            r@.len() <= MAX_LOADOUT,
            r@ + keep_unlocked(picks@.skip(i as int), pp, (MAX_LOADOUT - r@.len()) as nat)
                == keep_unlocked(picks@, pp, MAX_LOADOUT as nat),
        decreases picks@.len() - i,
    {
        let k = picks[i];
        let ghost rest = picks@.skip(i as int);
        assert(rest[0] == k);
        assert(rest.drop_first() =~= picks@.skip(i as int + 1));
        if required_pp(k) <= pp {
            let ghost before = r@;
            r.push(k);
            assert(r@ =~= before + seq![k]);
            assert(seq![k] + keep_unlocked(rest.drop_first(), pp, (MAX_LOADOUT - r@.len()) as nat)
                == keep_unlocked(rest, pp, (MAX_LOADOUT - r@.len() + 1) as nat));
        }
        i += 1;
    }
    proof {
        if i < picks.len() {
            assert(r@.len() == MAX_LOADOUT);
        } else {
            assert(picks@.skip(i as int).len() == 0);
        }
        assert(keep_unlocked(picks@.skip(i as int), pp, (MAX_LOADOUT - r@.len()) as nat) == Seq::<ItemKey>::empty());
        assert(r@ + Seq::<ItemKey>::empty() =~= r@);
    }
    r
}

/// Position of the first `k` in `s`, if any.
pub open spec fn first_index(s: Seq<ItemKey>, k: ItemKey) -> int {
    choose|p: int| 0 <= p < s.len() && s[p] == k && forall|j: int| 0 <= j < p ==> s[j] != k
}

fn position(items: &Vec<ItemKey>, k: ItemKey) -> (r: Option<usize>)
    ensures
        match r {
            Some(p) => p < items@.len() && items@[p as int] == k && forall|j: int| 0 <= j < p ==> items@[j] != k,
            None => !items@.contains(k),
        },
{
    let mut i: usize = 0;
    while i < items.len()
        invariant
            i <= items@.len(),
            forall|j: int| 0 <= j < i ==> items@[j] != k,
        decreases items@.len() - i,
    {
        if items[i] == k {
            return Some(i);
        }
        i += 1;
    }
    None
}

impl SoloSession {
    /// Replaces the loadout while configuring with the picks unlocked at
    /// `pp`, in order, at most three; returns the configuration to store, or
    /// `None` (and changes nothing) in any other state.
    pub fn select_items(&mut self, picks: &[ItemKey], pp: u32) -> (saved: Option<SoloHeistConfig>)
        ensures
            final(self).user_id == old(self).user_id,
            final(self).base_cfg == old(self).base_cfg,
            match old(self).state {
                SoloState::Config(c) => {
                    &&& final(self).state matches SoloState::Config(n)
                        && n.items@ == keep_unlocked(picks@, pp, MAX_LOADOUT as nat)
                        && n.mode == c.mode && n.risk == c.risk && n.minigame == c.minigame
                    &&& saved matches Some(k) && same_cfg(k, final(self).active_cfg())
                },
                _ => *final(self) == *old(self) && saved.is_none(),
            },
            old(self).wf() ==> final(self).wf(),
    {
        match &mut self.state {
            SoloState::Config(cfg) => {
                cfg.items = pick_loadout(picks, pp);
                Some(cfg.copied())
            },
            _ => None,
        }
    }

    /// Toggles one item while configuring: removes its first occurrence, or
    /// adds it at the end when the loadout has room; returns the
    /// configuration to store, or `None` (and changes nothing) in any other
    /// state.
    pub fn toggle_item(&mut self, k: ItemKey) -> (saved: Option<SoloHeistConfig>)
        ensures
            final(self).user_id == old(self).user_id,
            final(self).base_cfg == old(self).base_cfg,
            match old(self).state {
                SoloState::Config(c) => {
                    &&& final(self).state matches SoloState::Config(n)
                        && n.items@ == (if c.items@.contains(k) {
                            c.items@.remove(first_index(c.items@, k))
                        } else if c.items@.len() < MAX_LOADOUT {
                            c.items@.push(k)
                        } else {
                            c.items@
                        })
                        && n.mode == c.mode && n.risk == c.risk && n.minigame == c.minigame
                    &&& saved matches Some(s) && same_cfg(s, final(self).active_cfg())
                },
                _ => *final(self) == *old(self) && saved.is_none(),
            },
            old(self).wf() ==> final(self).wf(),
    {
        match &mut self.state {
            SoloState::Config(cfg) => {
                let ghost before = cfg.items@;
                match position(&cfg.items, k) {
                    Some(p) => {
                        proof {
                            let q = first_index(before, k);
                            assert(before.contains(k)) by {
                                assert(before[p as int] == k);
                            }
                            assert(exists|x: int| 0 <= x < before.len() && before[x] == k && forall|j: int| 0 <= j < x ==> before[j] != k);
                            assert(q == p as int) by {
                                if q < p as int {
                                    assert(before[q] != k);
                                } else if q > p as int {
                                    assert(before[p as int] != k);
                                }
                            }
                        }
                        cfg.items.remove(p);
                    },
                    None => {
                        if cfg.items.len() < MAX_LOADOUT {
                            cfg.items.push(k);
                        }
                    },
                }
                Some(cfg.copied())
            },
            _ => None,
        }
    }
}

/// Effect of a key press on the sequence minigame at `now_ms`, and whether
/// the session is shown again. A key is ignored while a preview runs; an
/// expired preview is cleared; a finished attempt ignores further keys; a
/// key matching the next symbol (ignoring ASCII case) advances the cursor,
/// and matching the last symbol wins; any other key loses. Outside the
/// minigame nothing changes.
pub open spec fn key_press_of(st: SoloState, got: char, now_ms: u64) -> (SoloState, bool) {
    match st {
        SoloState::InSimon { spec, seq, cursor, result, reveal_until, reveals_left } => {
            if reveal_until.is_some() && now_ms < reveal_until.unwrap() {
                (st, false)
            } else if result.is_some() {
                (SoloState::InSimon { spec, seq, cursor, result, reveal_until: None, reveals_left }, false)
            } else if cursor >= seq@.len() {
                (SoloState::InSimon {
                    spec, seq, cursor, result: Some(MinigameResult::Success), reveal_until: None, reveals_left,
                }, false)
            } else if ascii_upper(seq@[cursor as int]) == ascii_upper(got) {
                let c = cursor + 1;
                (SoloState::InSimon {
                    spec,
                    seq,
                    cursor: c as usize,
                    result: if c >= seq@.len() { Some(MinigameResult::Success) } else { None },
                    reveal_until: None,
                    reveals_left,
                }, true)
            } else {
                (SoloState::InSimon {
                    spec, seq, cursor, result: Some(MinigameResult::Fail), reveal_until: None, reveals_left,
                }, true)
            }
        },
        _ => (st, true),
    }
}

/// The minigame result a resolution of state `st` uses: the scored result of
/// the sequence check (not played while unfinished), not played while still
/// configuring, and the recorded one once resolved.
pub open spec fn pending_result_of(st: SoloState) -> MinigameResult {
    match st {
        SoloState::InSimon { result, .. } => match result {
            Some(r) => r,
            None => MinigameResult::NotPlayed,
        },
        SoloState::Config(_) => MinigameResult::NotPlayed,
        SoloState::Resolved(v) => v.mg,
    }
}

impl SoloSession {
    /// Starts the sequence minigame once mode and risk are chosen: snapshots
    /// the configuration (switched to the sequence check), sizes the check
    /// by risk and the loadout's length delta, draws the sequence, and shows
    /// it from `now_ms` for the preview time. Returns the configuration to
    /// store, or `None` (and changes nothing) when not configuring or when
    /// mode or risk is unset.
    pub fn start(&mut self, now_ms: u64) -> (saved: Option<SoloHeistConfig>)
        requires
            now_ms <= u64::MAX - MAX_PREVIEW_MS,
        ensures
            final(self).user_id == old(self).user_id,
            (old(self).state matches SoloState::Config(c) && c.mode.is_some() && c.risk.is_some()) ==> ({
                let c = old(self).active_cfg();
                let risk = c.risk_or_default();
                let e = aggregate_of(c.items@);
                &&& final(self).state matches SoloState::InSimon { spec, seq, cursor, result, reveal_until, reveals_left }
                    && spec.length == simon_len_of(risk, e.simon_seq_delta)
                    && spec.alphabet@ == simon_alphabet()
                    && seq@.len() == spec.length
                    && (forall|i: int| 0 <= i < seq@.len() ==> simon_alphabet().contains(#[trigger] seq@[i]))
                    && cursor == 0
                    && result.is_none()
                    && reveals_left == reveals_for(risk)
                    && reveal_until == Some((now_ms + preview_ms_of(risk, spec.length as int, e.simon_time_mult as int)) as u64)
                &&& final(self).base_cfg.mode == c.mode
                &&& final(self).base_cfg.risk == c.risk
                &&& final(self).base_cfg.minigame == MinigameKind::Simon
                &&& final(self).base_cfg.items@ == c.items@
                &&& saved matches Some(k) && same_cfg(k, final(self).base_cfg)
            }),
            !(old(self).state matches SoloState::Config(c) && c.mode.is_some() && c.risk.is_some())
                ==> *final(self) == *old(self) && saved.is_none(),
            old(self).wf() ==> final(self).wf(),
    {
        let picked = match &self.state {
            SoloState::Config(cfg0) => {
                if cfg0.mode.is_some() && cfg0.risk.is_some() {
                    Some(cfg0.copied())
                } else {
                    None
                }
            },
            _ => None,
        };
        match picked {
            None => None,
            Some(cfg) => {
                let mut cfg = cfg;
                cfg.minigame = MinigameKind::Simon;
                let risk = match cfg.risk {
                    Some(r) => r,
                    None => Risk::Medium,
                };
                let effects = aggregate(cfg.items.as_slice());
                let spec = simon_spec_for(risk, effects.simon_seq_delta);
                let seq = gen_simon_seq(&spec);
                let reveals_left: u8 = match risk {
                    Risk::Low => 2,
                    Risk::Medium => 1,
                    Risk::High | Risk::Hardcore => 0,
                };
                let ms = simon_preview_ms(risk, seq.len(), effects.simon_time_mult);
                self.base_cfg = cfg.copied();
                self.state = SoloState::InSimon {
                    spec,
                    seq,
                    cursor: 0,
                    result: None,
                    reveal_until: Some(now_ms + ms),
                    reveals_left,
                };
                Some(cfg)
            },
        }
    }

    /// Quick preview during the minigame: while the attempt is unfinished
    /// and previews remain, shows the sequence from `now_ms` for 800 ms per
    /// symbol and uses up one preview; otherwise nothing changes.
    pub fn show_sequence(&mut self, now_ms: u64)
        requires
            old(self).wf(),
            now_ms <= u64::MAX - MAX_PREVIEW_MS,
        ensures
            final(self).user_id == old(self).user_id,
            final(self).base_cfg == old(self).base_cfg,
            match old(self).state {
                SoloState::InSimon { spec, seq, cursor, result, reveal_until, reveals_left } => {
                    if result.is_none() && reveals_left > 0 {
                        final(self).state == (SoloState::InSimon {
                            spec,
                            seq,
                            cursor,
                            result,
                            reveal_until: Some((now_ms + SHOW_MS_PER_SYMBOL * seq@.len()) as u64),
                            reveals_left: (reveals_left - 1) as u8,
                        })
                    } else {
                        final(self).state == old(self).state
                    }
                },
                _ => final(self).state == old(self).state,
            },
            final(self).wf(),
    {
        match &mut self.state {
            SoloState::InSimon { seq, result, reveal_until, reveals_left, .. } => {
                if result.is_none() && *reveals_left > 0 {
                    *reveal_until = Some(now_ms + SHOW_MS_PER_SYMBOL * seq.len() as u64);
                    *reveals_left = *reveals_left - 1;
                }
            },
            _ => {},
        }
    }

    /// Another preview during the minigame, timed for the session's risk
    /// tier: refused while one is running (with the milliseconds left) or
    /// when none are left; otherwise shows the sequence from `now_ms` and
    /// uses up one preview.
    pub fn reveal_sequence(&mut self, now_ms: u64) -> (r: RevealReply)
        requires
            old(self).wf(),
            now_ms <= u64::MAX - MAX_PREVIEW_MS,
        ensures
            final(self).user_id == old(self).user_id,
            final(self).base_cfg == old(self).base_cfg,
            match old(self).state {
                SoloState::InSimon { spec, seq, cursor, result, reveal_until, reveals_left } => {
                    if reveal_until.is_some() && now_ms < reveal_until.unwrap() {
                        r == RevealReply::StillShowing((reveal_until.unwrap() - now_ms) as u64)
                            && final(self).state == old(self).state
                    } else if reveals_left == 0 {
                        r == RevealReply::NoneLeft && final(self).state == old(self).state
                    } else {
                        let ms = preview_ms_of(old(self).base_cfg.risk_or_default(), seq@.len() as int, ONE as int);
                        r == RevealReply::Started && final(self).state == (SoloState::InSimon {
                            spec,
                            seq,
                            cursor,
                            result,
                            reveal_until: Some((now_ms + ms) as u64),
                            reveals_left: (reveals_left - 1) as u8,
                        })
                    }
                },
                _ => r == RevealReply::NotPlaying && final(self).state == old(self).state,
            },
            final(self).wf(),
    {
        let risk = match self.base_cfg.risk {
            Some(r) => r,
            None => Risk::Medium,
        };
        match &mut self.state {
            SoloState::InSimon { seq, reveal_until, reveals_left, .. } => {
                match *reveal_until {
                    Some(t) => {
                        if now_ms < t {
                            return RevealReply::StillShowing(t - now_ms);
                        }
                    },
                    None => {},
                }
                if *reveals_left == 0 {
                    return RevealReply::NoneLeft;
                }
                let ms = simon_preview_ms(risk, seq.len(), ONE);
                *reveals_left = *reveals_left - 1;
                *reveal_until = Some(now_ms + ms);
                RevealReply::Started
            },
            _ => RevealReply::NotPlaying,
        }
    }

    /// One key of the sequence check at `now_ms` (see `key_press_of`);
    /// returns whether the session should be shown again.
    pub fn press_key(&mut self, got: char, now_ms: u64) -> (render: bool)
        requires
            old(self).wf(),
        ensures
            final(self).user_id == old(self).user_id,
            final(self).base_cfg == old(self).base_cfg,
            (final(self).state, render) == key_press_of(old(self).state, got, now_ms),
            final(self).wf(),
    {
        match &mut self.state {
            SoloState::InSimon { seq, cursor, result, reveal_until, .. } => {
                match *reveal_until {
                    Some(t) => {
                        if now_ms < t {
                            return false;
                        }
                        *reveal_until = None;
                    },
                    None => {},
                }
                if result.is_some() {
                    return false;
                }
                if *cursor >= seq.len() {
                    *result = Some(MinigameResult::Success);
                    return false;
                }
                let expected = seq[*cursor];
                if check_simon_step(expected, got) {
                    *cursor = *cursor + 1;
                    if *cursor >= seq.len() {
                        *result = Some(MinigameResult::Success);
                    }
                } else {
                    *result = Some(MinigameResult::Fail);
                }
                true
            },
            _ => true,
        }
    }

    /// The minigame result a resolution of this session uses.
    pub fn pending_result(&self) -> (r: MinigameResult)
        ensures
            r == pending_result_of(self.state),
    {
        match &self.state {
            SoloState::InSimon { result, .. } => match result {
                Some(r) => *r,
                None => MinigameResult::NotPlayed,
            },
            SoloState::Config(_) => MinigameResult::NotPlayed,
            SoloState::Resolved(v) => v.mg,
        }
    }

    /// Back to a fresh configuration, allowed while configuring or after a
    /// resolution; refused (returns `false`, changes nothing) during the
    /// minigame.
    pub fn reset(&mut self) -> (done: bool)
        ensures
            final(self).user_id == old(self).user_id,
            done == !(old(self).state is InSimon),
            done ==> (final(self).state matches SoloState::Config(c) && is_default_cfg(c)) && is_default_cfg(final(self).base_cfg),
            !done ==> *final(self) == *old(self),
            old(self).wf() ==> final(self).wf(),
    {
        match &self.state {
            SoloState::InSimon { .. } => false,
            _ => {
                self.base_cfg = SoloHeistConfig::default();
                self.state = SoloState::Config(SoloHeistConfig::default());
                true
            },
        }
    }
}

/// Items that going from `before_pp` to `after_pp` progress points
/// unlocks, in catalog order (thresholds strictly rising).
pub fn newly_unlocked(before_pp: u32, after_pp: u32) -> (r: Vec<ItemKey>)
    ensures
        forall|k: ItemKey| r@.contains(k) <==> before_pp < required_pp_of(k) <= after_pp,
        forall|i: int, j: int| 0 <= i < j < r@.len() ==> required_pp_of(r@[i]) < required_pp_of(r@[j]),
{
    let cat = available_items(after_pp);
    let mut r: Vec<ItemKey> = Vec::new();
    let mut i: usize = 0;
    while i < cat.len()
        invariant
            i <= cat@.len(),
            cat@ == catalog_of().take(cat@.len() as int),
            cat@.len() <= 6,
            forall|k: ItemKey| cat@.contains(k) <==> required_pp_of(k) <= after_pp,
            forall|k: ItemKey| r@.contains(k) <==> (cat@.take(i as int).contains(k) && before_pp < required_pp_of(k)),
            forall|a: int, b: int| 0 <= a < b < r@.len() ==> required_pp_of(r@[a]) < required_pp_of(r@[b]),
            forall|a: int| 0 <= a < r@.len() ==> exists|x: int| 0 <= x < i && cat@[x] == #[trigger] r@[a],
        decreases cat@.len() - i,
    {
        let k = cat[i];
        let ghost old_r = r@;
        let ghost seen = cat@.take(i as int);
        assert(cat@.take(i as int + 1) =~= seen.push(k));
        if required_pp(k) > before_pp {
            r.push(k);
            assert(r@ =~= old_r.push(k));
            assert forall|a: int| 0 <= a < old_r.len() implies required_pp_of(old_r[a]) < required_pp_of(k) by {
                let x = choose|x: int| 0 <= x < i && cat@[x] == old_r[a];
                assert(catalog_of()[x] == cat@[x]);
                assert(catalog_of()[i as int] == k);
            }
            assert forall|a: int| 0 <= a < r@.len() implies exists|x: int| 0 <= x < i + 1 && cat@[x] == #[trigger] r@[a] by {
                if a < old_r.len() {
                    let x = choose|x: int| 0 <= x < i && cat@[x] == old_r[a];
                    assert(cat@[x] == r@[a]);
                } else {
                    assert(cat@[i as int] == r@[a]);
                }
            }
        }
        assert(r@ == old_r.push(k) <==> before_pp < required_pp_of(k));
        assert(before_pp >= required_pp_of(k) ==> r@ == old_r);
        assert forall|q: ItemKey| r@.contains(q) <==> (seen.push(k).contains(q) && before_pp < required_pp_of(q)) by {
            if r@.contains(q) {
                let a = choose|a: int| 0 <= a < r@.len() && r@[a] == q;
                if a < old_r.len() {
                    assert(old_r[a] == q);
                    assert(old_r.contains(q));
                    let b = choose|b: int| 0 <= b < seen.len() && seen[b] == q;
                    assert(seen.push(k)[b] == q);
                } else {
                    assert(r@ == old_r.push(k));
                    assert(q == k);
                    assert(seen.push(k)[seen.len() as int] == q);
                }
            }
            if seen.push(k).contains(q) && before_pp < required_pp_of(q) {
                let b = choose|b: int| 0 <= b < seen.len() + 1 && seen.push(k)[b] == q;
                if b < seen.len() {
                    assert(seen[b] == q);
                    assert(old_r.contains(q));
                    let a = choose|a: int| 0 <= a < old_r.len() && old_r[a] == q;
                    assert(r@[a] == q);
                } else {
                    assert(q == k);
                    assert(r@ == old_r.push(k));
                    assert(r@[r@.len() - 1] == q);
                }
            }
        }
        i += 1;
    }
    assert(cat@.take(i as int) =~= cat@);
    r
}

impl SoloSession {
    /// Records a resolution: the profile before and after, each with the
    /// balance read from the ledger, the items the new progress unlocked,
    /// and what was played. Returns the "after" profile to persist.
    pub fn finish_resolution(
        &mut self,
        cfg: SoloHeistConfig,
        mg: MinigameResult,
        before: PlayerProfile,
        after: PlayerProfile,
        outcome: HeistOutcome,
        db_before: i64,
        db_after: i64,
    ) -> (r: PlayerProfile)
        ensures
            final(self).user_id == old(self).user_id,
            final(self).base_cfg == old(self).base_cfg,
            r == (PlayerProfile { balance: db_after, ..after }),
            final(self).state matches SoloState::Resolved(v)
                && v.outcome == outcome
                && v.cfg == cfg
                && v.mg == mg
                && v.before == (PlayerProfile { balance: db_before, ..before })
                && v.after == r
                && (forall|k: ItemKey| v.newly_unlocked@.contains(k) <==> before.pp < required_pp_of(k) <= after.pp),
            final(self).wf(),
    {
        let newly = newly_unlocked(before.pp, after.pp);
        let mut before_fixed = before;
        before_fixed.balance = db_before;
        let mut after_fixed = after;
        after_fixed.balance = db_after;
        self.state = SoloState::Resolved(ResolvedView {
            outcome,
            cfg,
            mg,
            before: before_fixed,
            after: after_fixed,
            newly_unlocked: newly,
        });
        after_fixed
    }
}

} // verus!
