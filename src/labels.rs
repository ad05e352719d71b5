//! Display text of the heist interface: labels, emoji, gauges and the heat
//! summary.

use vstd::prelude::*;
use crate::balance::HeatEffects;
use crate::types::{CrimeMode, ItemKey, MinigameKind, Risk};

verus! {

/// Decimal digits of `n`, without leading zeros.
pub open spec fn decimal_of(n: nat) -> Seq<char>
    decreases n,
{
    if n < 10 {
        seq![(('0' as nat) + n) as char]
    } else {
        decimal_of(n / 10) + seq![(('0' as nat) + n % 10) as char]
    }
}

/// Relies on `ToString::to_string` for `u64`, which goes through `Display`:
/// the decimal digits of the number, without sign or leading zeros.
#[verifier::external_body]
fn decimal(n: u64) -> (r: String)
    ensures
        r@ == decimal_of(n as nat),
{
    n.to_string()
}

/// Display name of a mode.
pub open spec fn mode_label_of(m: CrimeMode) -> Seq<char> {
    match m {
        CrimeMode::Standard => "Standard"@,
        CrimeMode::Szybki => "Szybki"@,
        CrimeMode::Ostrozny => "Ostrożny"@,
        CrimeMode::Shadow => "Shadow"@,
        CrimeMode::Hardcore => "Hardcore"@,
        CrimeMode::Ryzykowny => "Ryzykowny"@,
        CrimeMode::Planowany => "Planowany"@,
        CrimeMode::Szalony => "Szalony"@,
    }
}

/// Display name of mode `m`.
pub fn mode_label(m: CrimeMode) -> (r: &'static str)
    ensures
        r@ == mode_label_of(m),
{
    match m {
        CrimeMode::Standard => "Standard",
        CrimeMode::Szybki => "Szybki",
        CrimeMode::Ostrozny => "Ostrożny",
        CrimeMode::Shadow => "Shadow",
        CrimeMode::Hardcore => "Hardcore",
        CrimeMode::Ryzykowny => "Ryzykowny",
        CrimeMode::Planowany => "Planowany",
        CrimeMode::Szalony => "Szalony",
    }
}

/// One-line description of an item.
pub open spec fn item_short_desc_of(k: ItemKey) -> Seq<char> {
    match k {
        ItemKey::HackerLaptop => "Ułatwia łamanie — krótsza sekwencja/czas."@,
        ItemKey::ProGloves => "Mniejsze pomyłki — lekka tolerancja wejść."@,
        ItemKey::Toolkit => "Bonus do nagrody / stabilniejszy łup."@,
        ItemKey::Adrenaline => "Po podglądzie łatwiej przez chwilę."@,
        ItemKey::SmokeGrenade => "Dłuższy podgląd sekwencji (1x)."@,
        ItemKey::LockpickSet => "Mniejsza kara za porażkę."@,
    }
}

/// One-line description of item `k`.
pub fn item_short_desc(k: ItemKey) -> (r: &'static str)
    ensures
        r@ == item_short_desc_of(k),
{
    match k {
        ItemKey::HackerLaptop => "Ułatwia łamanie — krótsza sekwencja/czas.",
        ItemKey::ProGloves => "Mniejsze pomyłki — lekka tolerancja wejść.",
        ItemKey::Toolkit => "Bonus do nagrody / stabilniejszy łup.",
        ItemKey::Adrenaline => "Po podglądzie łatwiej przez chwilę.",
        ItemKey::SmokeGrenade => "Dłuższy podgląd sekwencji (1x).",
        ItemKey::LockpickSet => "Mniejsza kara za porażkę.",
    }
}

/// Emoji of an item.
pub open spec fn emoji_for_item_of(i: ItemKey) -> Seq<char> {
    match i {
        ItemKey::HackerLaptop => "💻"@,
        ItemKey::ProGloves => "🧤"@,
        ItemKey::Toolkit => "🧰"@,
        ItemKey::Adrenaline => "⚗️"@,
        ItemKey::SmokeGrenade => "💨"@,
        ItemKey::LockpickSet => "🗝️"@,
    }
}

/// Emoji of item `i`.
pub fn emoji_for_item(i: ItemKey) -> (r: &'static str)
    ensures
        r@ == emoji_for_item_of(i),
{
    match i {
        ItemKey::HackerLaptop => "💻",
        ItemKey::ProGloves => "🧤",
        ItemKey::Toolkit => "🧰",
        ItemKey::Adrenaline => "⚗️",
        ItemKey::SmokeGrenade => "💨",
        ItemKey::LockpickSet => "🗝️",
    }
}

/// Emoji of a risk tier.
pub open spec fn emoji_for_risk_of(r: Risk) -> Seq<char> {
    match r {
        Risk::Low => "🟢"@,
        Risk::Medium => "🟡"@,
        Risk::High => "🟠"@,
        Risk::Hardcore => "🔴"@,
    }
}

/// Emoji of risk tier `r`.
pub fn emoji_for_risk(r: Risk) -> (s: &'static str)
    ensures
        s@ == emoji_for_risk_of(r),
{
    match r {
        Risk::Low => "🟢",
        Risk::Medium => "🟡",
        Risk::High => "🟠",
        Risk::Hardcore => "🔴",
    }
}

/// Emoji of a mode.
pub open spec fn emoji_for_mode_of(m: CrimeMode) -> Seq<char> {
    match m {
        CrimeMode::Standard => "⚙️"@,
        CrimeMode::Szybki => "⚡"@,
        CrimeMode::Ostrozny => "👣"@,
        CrimeMode::Shadow => "🌑"@,
        CrimeMode::Hardcore => "🔥"@,
        CrimeMode::Ryzykowny => "🎲"@,
        CrimeMode::Planowany => "🗺️"@,
        CrimeMode::Szalony => "🤪"@,
    }
}

/// Emoji of mode `m`.
pub fn emoji_for_mode(m: CrimeMode) -> (r: &'static str)
    ensures
        r@ == emoji_for_mode_of(m),
{
    match m {
        CrimeMode::Standard => "⚙️",
        CrimeMode::Szybki => "⚡",
        CrimeMode::Ostrozny => "👣",
        CrimeMode::Shadow => "🌑",
        CrimeMode::Hardcore => "🔥",
        CrimeMode::Ryzykowny => "🎲",
        CrimeMode::Planowany => "🗺️",
        CrimeMode::Szalony => "🤪",
    }
}

/// Emoji of a minigame kind.
pub open spec fn emoji_for_minigame_of(k: MinigameKind) -> Seq<char> {
    match k {
        MinigameKind::Qte => "🎯"@,
        MinigameKind::Simon => "🧠"@,
    }
}

/// Emoji of minigame kind `k`.
pub fn emoji_for_minigame(k: MinigameKind) -> (r: &'static str)
    ensures
        r@ == emoji_for_minigame_of(k),
{
    match k {
        MinigameKind::Qte => "🎯",
        MinigameKind::Simon => "🧠",
    }
}

/// A gauge of `width` cells, the first `filled` of them full.
pub open spec fn gauge_of(filled: int, width: nat) -> Seq<char> {
    Seq::new(width, |i: int| if i < filled { '▰' } else { '▱' })
}

/// Appends a gauge of `width` cells, the first `filled` full, to `s`.
fn push_gauge(s: &mut String, filled: u32, width: u32)
    ensures
        final(s)@ == old(s)@ + gauge_of(filled as int, width as nat),
{
    let ghost start = s@;
    let mut i: u32 = 0;
    while i < width
        invariant
            i <= width,
            s@ == start + gauge_of(filled as int, i as nat),
        decreases width - i,
    {
        proof {
            reveal_strlit("▰");
            reveal_strlit("▱");
        }
        if i < filled {
            s.append("▰");
            assert("▰"@ =~= seq!['▰']);
        } else {
            s.append("▱");
            assert("▱"@ =~= seq!['▱']);
        }
        assert(gauge_of(filled as int, (i + 1) as nat) =~= gauge_of(filled as int, i as nat).push(
            if i < filled { '▰' } else { '▱' },
        ));
        assert(s@ =~= start + gauge_of(filled as int, (i + 1) as nat));
        i += 1;
    }
}

/// A ten-cell gauge of a value in `[0, 100]` (larger values count as 100);
/// any positive share fills at least one cell.
pub fn bar10(value_0_100: u32) -> (r: String)
    ensures
        r@ == gauge_of(
            ((if value_0_100 > 100 { 100 } else { value_0_100 as int }) * 10 + 99) / 100,
            10,
        ),
{
    let v = if value_0_100 > 100 { 100 } else { value_0_100 };
    let filled = (v * 10 + 99) / 100;
    let mut s = String::new();
    push_gauge(&mut s, filled, 10);
    assert(s@ =~= gauge_of(filled as int, 10));
    s
}

/// A configuration step chip: the label in backticks and a tick or an
/// empty box.
pub fn chip_step(label: &str, done: bool) -> (r: String)
    ensures
        r@ == "`"@ + label@ + (if done { "` ✅"@ } else { "` ⬜"@ }),
{
    let mut s = String::from_str("`");
    s.append(label);
    if done {
        s.append("` ✅");
    } else {
        s.append("` ⬜");
    }
    s
}

/// The loadout gauge: a bag, `maxv` cells of which `cur` (at most `maxv`)
/// are full, and the count.
pub fn bag_bar3(cur: u32, maxv: u32) -> (r: String)
    ensures
        ({
            let c = if cur > maxv { maxv } else { cur };
            r@ == "🎒 ["@ + gauge_of(c as int, maxv as nat) + "] "@ + decimal_of(c as nat) + "/"@
                + decimal_of(maxv as nat)
        }),
{
    let c = if cur > maxv { maxv } else { cur };
    let mut s = String::from_str("🎒 [");
    push_gauge(&mut s, c, maxv);
    s.append("] ");
    let a = decimal(c as u64);
    s.append(a.as_str());
    s.append("/");
    let b = decimal(maxv as u64);
    s.append(b.as_str());
    s
}

/// Progress through a sequence: a ten-cell gauge of the share done and the
/// count, `current` taken as at most `total` and `total` as at least 1.
pub fn progress_bar(current: usize, total: usize) -> (r: String)
    requires
        total <= usize::MAX / 100,
    ensures
        ({
            let t = if total < 1 { 1 } else { total as int };
            let d = if current > t { t } else { current as int };
            let pct = d * 100 / t;
            r@ == "["@ + gauge_of((pct * 10 + 99) / 100, 10) + "] "@ + decimal_of(d as nat) + "/"@
                + decimal_of(t as nat)
        }),
{
    let t = if total < 1 { 1 } else { total };
    let d = if current > t { t } else { current };
    assert(d * 100 <= t * 100) by (nonlinear_arith)
        requires
            d <= t,
    ;
    let pct = (d * 100) / t;
    assert(pct <= 100) by (nonlinear_arith)
        requires
            d <= t,
            t >= 1,
            pct == (d * 100) / (t as int),
    ;
    let mut s = String::from_str("[");
    let g = bar10(pct as u32);
    s.append(g.as_str());
    s.append("] ");
    let a = decimal(d as u64);
    s.append(a.as_str());
    s.append("/");
    let b = decimal(t as u64);
    s.append(b.as_str());
    s
}

/// Decimal text of a signed number: a minus sign before the digits of its
/// magnitude when negative.
pub open spec fn signed_decimal_of(n: int) -> Seq<char> {
    if n < 0 {
        "-"@ + decimal_of((-n) as nat)
    } else {
        decimal_of(n as nat)
    }
}

/// A non-negative amount in millionths as text with two decimals, rounded
/// half up.
pub open spec fn fixed2_nat(m: nat) -> Seq<char> {
    let h = (m + 5000) / 10000;
    let f = h % 100;
    decimal_of(h / 100) + "."@ + (if f < 10 { "0"@ } else { Seq::empty() }) + decimal_of(f)
}

/// An amount in millionths as text with two decimals; negative amounts get
/// a minus sign before their magnitude.
pub open spec fn fixed2_of(m: int) -> Seq<char> {
    if m < 0 {
        "-"@ + fixed2_nat((-m) as nat)
    } else {
        fixed2_nat(m as nat)
    }
}

/// Magnitude of `n`.
fn magnitude(n: i64) -> (r: u64)
    ensures
        r == (if n < 0 { -n } else { n as int }),
{
    if n < 0 {
        ((-(n + 1)) as u64) + 1
    } else {
        n as u64
    }
}

fn signed_decimal(n: i64) -> (r: String)
    ensures
        r@ == signed_decimal_of(n as int),
{
    if n < 0 {
        let mut s = String::from_str("-");
        let d = decimal(magnitude(n));
        s.append(d.as_str());
        s
    } else {
        decimal(n as u64)
    }
}

fn fixed2(m: i64) -> (r: String)
    ensures
        r@ == fixed2_of(m as int),
{
    let mut s = if m < 0 { String::from_str("-") } else { String::new() };
    let a = magnitude(m) as u128;
    let h = (a + 5000) / 10000;
    let f = h % 100;
    let whole = decimal((h / 100) as u64);
    s.append(whole.as_str());
    s.append(".");
    if f < 10 {
        s.append("0");
    }
    let frac = decimal(f as u64);
    s.append(frac.as_str());
    proof {
        if m < 0 {
            assert(s@ =~= fixed2_of(m as int));
        } else {
            assert(s@ =~= fixed2_of(m as int));
        }
    }
    s
}

/// Separator of the summary's parts.
pub open spec fn summary_sep() -> Seq<char> {
    " • "@
}

/// The three multipliers of a heat summary, with two decimals.
pub open spec fn summary_head_of(e: HeatEffects) -> Seq<char> {
    "Szansa ×"@ + fixed2_of(e.chance_mult as int) + summary_sep() + "Łup ×"@ + fixed2_of(e.reward_mult as int)
        + summary_sep() + "QTE okno ×"@ + fixed2_of(e.qte_window_mult as int)
}

/// The sequence increase of a heat summary, where it applies.
pub open spec fn summary_simon_of(e: HeatEffects) -> Seq<char> {
    if e.simon_seq_delta != 0 {
        summary_sep() + "Simon +"@ + signed_decimal_of(e.simon_seq_delta as int)
    } else {
        Seq::empty()
    }
}

/// The extra cooldown of a heat summary, where it applies.
pub open spec fn summary_cooldown_of(e: HeatEffects) -> Seq<char> {
    if e.extra_cooldown_secs > 0 {
        summary_sep() + "+"@ + decimal_of(e.extra_cooldown_secs as nat) + "s CD"@
    } else {
        Seq::empty()
    }
}

/// The ambush chance of a heat summary, where it applies.
pub open spec fn summary_ambush_of(e: HeatEffects) -> Seq<char> {
    if e.ambush_chance_pct > 0 {
        summary_sep() + "Zasadzka "@ + decimal_of(e.ambush_chance_pct as nat) + "%"@
    } else {
        Seq::empty()
    }
}

/// Short summary of heat penalties: the three multipliers with two
/// decimals, then, where they apply, the sequence increase, the extra
/// cooldown and the ambush chance, separated by " • ".
pub open spec fn heat_summary_of(e: HeatEffects) -> Seq<char> {
    summary_head_of(e) + summary_simon_of(e) + summary_cooldown_of(e) + summary_ambush_of(e)
}

fn summary_head(e: HeatEffects) -> (r: String)
    ensures
        r@ == summary_head_of(e),
{
    let mut s = String::from_str("Szansa ×");
    let a = fixed2(e.chance_mult);
    s.append(a.as_str());
    s.append(" • ");
    s.append("Łup ×");
    let b = fixed2(e.reward_mult);
    s.append(b.as_str());
    s.append(" • ");
    s.append("QTE okno ×");
    let c = fixed2(e.qte_window_mult);
    s.append(c.as_str());
    assert(s@ =~= summary_head_of(e));
    s
}

fn push_summary_simon(s: &mut String, e: HeatEffects)
    ensures
        final(s)@ == old(s)@ + summary_simon_of(e),
{
    let ghost p = s@;
    if e.simon_seq_delta != 0 {
        s.append(" • ");
        s.append("Simon +");
        let d = signed_decimal(e.simon_seq_delta as i64);
        s.append(d.as_str());
    }
    assert(s@ =~= p + summary_simon_of(e));
}

fn push_summary_cooldown(s: &mut String, e: HeatEffects)
    ensures
        final(s)@ == old(s)@ + summary_cooldown_of(e),
{
    let ghost p = s@;
    if e.extra_cooldown_secs > 0 {
        s.append(" • ");
        s.append("+");
        let d = decimal(e.extra_cooldown_secs);
        s.append(d.as_str());
        s.append("s CD");
    }
    assert(s@ =~= p + summary_cooldown_of(e));
}

fn push_summary_ambush(s: &mut String, e: HeatEffects)
    ensures
        final(s)@ == old(s)@ + summary_ambush_of(e),
{
    let ghost p = s@;
    if e.ambush_chance_pct > 0 {
        s.append(" • ");
        s.append("Zasadzka ");
        let d = decimal(e.ambush_chance_pct as u64);
        s.append(d.as_str());
        s.append("%");
    }
    assert(s@ =~= p + summary_ambush_of(e));
}

/// Short summary of heat penalties for display.
pub fn format_heat_summary(e: HeatEffects) -> (r: String)
    ensures
        r@ == heat_summary_of(e),
{
    let mut s = summary_head(e);
    push_summary_simon(&mut s, e);
    push_summary_cooldown(&mut s, e);
    push_summary_ambush(&mut s, e);
    s
}

} // verus!
