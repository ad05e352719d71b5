//! Skill checks: the reaction-timing check and the sequence-reproduction
//! check. Risk and items size them; a completed attempt scores into a
//! `MinigameResult`.

use vstd::prelude::*;
use crate::entropy::random_in;
use crate::types::{clamp, MinigameResult, QteSpec, Risk, SimonSpec};

verus! {

/// Moment the reaction check aims at, in milliseconds.
pub const QTE_TARGET_MS: i32 = 1200;

/// Narrowest reaction window, in milliseconds.
pub const QTE_MIN_WINDOW_MS: i32 = 40;

/// Reaction window of a risk tier before bonuses, in milliseconds.
pub open spec fn qte_base_window(risk: Risk) -> int {
    match risk {
        Risk::Low => 220,
        Risk::Medium => 150,
        Risk::High => 100,
        Risk::Hardcore => 70,
    }
}

/// Reaction check for `risk`: target 1200 ms, window of the tier plus the
/// bonus, at least 40 ms.
pub fn qte_spec_for(risk: Risk, window_bonus_ms: i32) -> (r: QteSpec)
    requires
        qte_base_window(risk) + window_bonus_ms <= i32::MAX,
    ensures
        r.target_ms == QTE_TARGET_MS,
        r.window_ms == (if qte_base_window(risk) + window_bonus_ms < QTE_MIN_WINDOW_MS {
            QTE_MIN_WINDOW_MS as int
        } else {
            qte_base_window(risk) + window_bonus_ms
        }),
{
    let base_window: i32 = match risk {
        Risk::Low => 220,
        Risk::Medium => 150,
        Risk::High => 100,
        Risk::Hardcore => 70,
    };
    let w = base_window + window_bonus_ms;
    QteSpec { target_ms: QTE_TARGET_MS, window_ms: if w < QTE_MIN_WINDOW_MS { QTE_MIN_WINDOW_MS } else { w } }
}

/// Absolute distance between two instants, in milliseconds.
pub open spec fn distance(a: int, b: int) -> int {
    if a >= b { a - b } else { b - a }
}

/// Score of a reaction: within the window is a success, within twice the
/// window a near miss carrying the distance, beyond that a failure.
pub open spec fn score_qte_of(elapsed_ms: i32, spec: QteSpec) -> MinigameResult {
    let diff = distance(elapsed_ms as int, spec.target_ms as int);
    if diff <= spec.window_ms {
        MinigameResult::Success
    } else if diff <= 2 * spec.window_ms {
        MinigameResult::Partial(diff as i32)
    } else {
        MinigameResult::Fail
    }
}

/// Scores a reaction after `elapsed_ms`.
pub fn score_qte(elapsed_ms: i32, spec: &QteSpec) -> (r: MinigameResult)
    requires
        spec.window_ms <= i32::MAX / 2,
    ensures
        r == score_qte_of(elapsed_ms, *spec),
{
    let e = elapsed_ms as i64;
    let t = spec.target_ms as i64;
    let w = spec.window_ms as i64;
    let diff = if e >= t { e - t } else { t - e };
    if diff <= w {
        MinigameResult::Success
    } else if diff <= 2 * w {
        MinigameResult::Partial(diff as i32)
    } else {
        MinigameResult::Fail
    }
}

/// Sequence length of a risk tier before any delta.
pub open spec fn simon_base_len(risk: Risk) -> int {
    match risk {
        Risk::Low => 4,
        Risk::Medium => 5,
        Risk::High => 6,
        Risk::Hardcore => 7,
    }
}

/// Sequence length for `risk` after `len_delta`, limited to `[3, 8]`.
pub open spec fn simon_len_of(risk: Risk, len_delta: i32) -> int {
    clamp(simon_base_len(risk) + len_delta, 3, 8)
}

/// The fixed symbol set of the sequence check.
pub open spec fn simon_alphabet() -> Seq<char> {
    seq!['A', 'B', 'C', 'D']
}

/// Sequence check for `risk`, its length moved by `len_delta`.
pub fn simon_spec_for(risk: Risk, len_delta: i32) -> (r: SimonSpec)
    ensures
        r.length == simon_len_of(risk, len_delta),
        r.alphabet@ == simon_alphabet(),
{
    let base_len: i64 = match risk {
        Risk::Low => 4,
        Risk::Medium => 5,
        Risk::High => 6,
        Risk::Hardcore => 7,
    };
    let l = base_len + len_delta as i64;
    let length: usize = if l < 3 { 3 } else if l > 8 { 8 } else { l as usize };
    let alphabet = ['A', 'B', 'C', 'D'];
    assert(alphabet@ =~= simon_alphabet());
    SimonSpec { length, alphabet }
}

/// A challenge for `spec`: `length` symbols, each drawn independently and
/// uniformly from the alphabet (repeats allowed).
pub fn gen_simon_seq(spec: &SimonSpec) -> (r: Vec<char>)
    ensures
        r@.len() == spec.length,
        forall|i: int| 0 <= i < r@.len() ==> spec.alphabet@.contains(#[trigger] r@[i]),
{
    let mut r: Vec<char> = Vec::new();
    let mut n: usize = 0;
    while n < spec.length
        invariant
            n <= spec.length,
            r@.len() == n,
            forall|i: int| 0 <= i < r@.len() ==> spec.alphabet@.contains(#[trigger] r@[i]),
        decreases spec.length - n,
    {
        let i = random_in(0, 3) as usize;
        let c = spec.alphabet[i];
        assert(spec.alphabet@[i as int] == c);
        r.push(c);
        n += 1;
    }
    r
}

/// Code of `c` with ASCII lower-case letters taken to upper case.
pub open spec fn ascii_upper(c: char) -> u32 {
    if 'a' <= c <= 'z' {
        (c as u32 - 32) as u32
    } else {
        c as u32
    }
}

/// One step of the sequence check: does `got` match `expected`, ignoring
/// ASCII case?
pub fn check_simon_step(expected: char, got: char) -> (r: bool)
    ensures
        r == (ascii_upper(expected) == ascii_upper(got)),
{
    let e: u32 = if 'a' <= expected && expected <= 'z' { expected as u32 - 32 } else { expected as u32 };
    let g: u32 = if 'a' <= got && got <= 'z' { got as u32 - 32 } else { got as u32 };
    e == g
}

/// The sequence length is the tier's base length when no delta applies; a
/// delta that brings it to 3 or below gives 3 (so -2 does at Low and Medium);
/// a delta of +4 or more gives 8 at every tier.
pub proof fn lemma_simon_length_clamps(risk: Risk, len_delta: i32)
    ensures
        simon_len_of(risk, 0) == simon_base_len(risk),
        simon_base_len(risk) + len_delta <= 3 ==> simon_len_of(risk, len_delta) == 3,
        (risk == Risk::Low || risk == Risk::Medium) && len_delta <= -2 ==> simon_len_of(risk, len_delta) == 3,
        len_delta >= 4 ==> simon_len_of(risk, len_delta) == 8,
        3 <= simon_len_of(risk, len_delta) <= 8,
{
}

} // verus!
