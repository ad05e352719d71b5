//! Stable text keys of modes, risk tiers and items, as stored with a
//! player's settings and carried in interface identifiers.

use vstd::prelude::*;
use crate::types::{CrimeMode, ItemKey, Risk};

verus! {

/// Key of a mode.
pub open spec fn mode_key(m: CrimeMode) -> Seq<char> {
    match m {
        CrimeMode::Standard => "standard"@,
        CrimeMode::Szybki => "szybki"@,
        CrimeMode::Ostrozny => "ostrozny"@,
        CrimeMode::Shadow => "shadow"@,
        CrimeMode::Hardcore => "hardcore"@,
        CrimeMode::Ryzykowny => "ryzykowny"@,
        CrimeMode::Planowany => "planowany"@,
        CrimeMode::Szalony => "szalony"@,
    }
}

/// Key of a risk tier.
pub open spec fn risk_key(r: Risk) -> Seq<char> {
    match r {
        Risk::Low => "low"@,
        Risk::Medium => "medium"@,
        Risk::High => "high"@,
        Risk::Hardcore => "hardcore"@,
    }
}

/// Key of an item.
pub open spec fn item_key(k: ItemKey) -> Seq<char> {
    match k {
        ItemKey::HackerLaptop => "laptop"@,
        ItemKey::ProGloves => "gloves"@,
        ItemKey::Toolkit => "toolkit"@,
        ItemKey::Adrenaline => "adrenaline"@,
        ItemKey::SmokeGrenade => "smoke"@,
        ItemKey::LockpickSet => "lockpick"@,
    }
}

/// The mode whose key is `s`; Standard for any other text.
pub open spec fn mode_of_key(s: Seq<char>) -> CrimeMode {
    if s == "standard"@ {
        CrimeMode::Standard
    } else if s == "szybki"@ {
        CrimeMode::Szybki
    } else if s == "ostrozny"@ {
        CrimeMode::Ostrozny
    } else if s == "shadow"@ {
        CrimeMode::Shadow
    } else if s == "hardcore"@ {
        CrimeMode::Hardcore
    } else if s == "ryzykowny"@ {
        CrimeMode::Ryzykowny
    } else if s == "planowany"@ {
        CrimeMode::Planowany
    } else if s == "szalony"@ {
        CrimeMode::Szalony
    } else {
        CrimeMode::Standard
    }
}

/// The risk tier whose key is `s`; Medium for any other text.
pub open spec fn risk_of_key(s: Seq<char>) -> Risk {
    if s == "low"@ {
        Risk::Low
    } else if s == "medium"@ {
        Risk::Medium
    } else if s == "high"@ {
        Risk::High
    } else if s == "hardcore"@ {
        Risk::Hardcore
    } else {
        Risk::Medium
    }
}

/// The item whose key is `s`, if any.
pub open spec fn item_of_key(s: Seq<char>) -> Option<ItemKey> {
    if s == "laptop"@ {
        Some(ItemKey::HackerLaptop)
    } else if s == "gloves"@ {
        Some(ItemKey::ProGloves)
    } else if s == "toolkit"@ {
        Some(ItemKey::Toolkit)
    } else if s == "adrenaline"@ {
        Some(ItemKey::Adrenaline)
    } else if s == "smoke"@ {
        Some(ItemKey::SmokeGrenade)
    } else if s == "lockpick"@ {
        Some(ItemKey::LockpickSet)
    } else {
        None
    }
}

/// Do two texts hold the same characters?
pub(crate) fn same_text(a: &str, b: &str) -> (r: bool)
    ensures
        r == (a@ == b@),
{
    a.to_owned() == b.to_owned()
}

/// Key of mode `m`.
pub fn mode_to_str(m: CrimeMode) -> (r: &'static str)
    ensures
        r@ == mode_key(m),
{
    match m {
        CrimeMode::Standard => "standard",
        CrimeMode::Szybki => "szybki",
        CrimeMode::Ostrozny => "ostrozny",
        CrimeMode::Shadow => "shadow",
        CrimeMode::Hardcore => "hardcore",
        CrimeMode::Ryzykowny => "ryzykowny",
        CrimeMode::Planowany => "planowany",
        CrimeMode::Szalony => "szalony",
    }
}

/// Key of risk tier `r`.
pub fn risk_to_str(r: Risk) -> (s: &'static str)
    ensures
        s@ == risk_key(r),
{
    match r {
        Risk::Low => "low",
        Risk::Medium => "medium",
        Risk::High => "high",
        Risk::Hardcore => "hardcore",
    }
}

/// Key of item `k`.
pub fn key_item(k: ItemKey) -> (r: &'static str)
    ensures
        r@ == item_key(k),
{
    match k {
        ItemKey::HackerLaptop => "laptop",
        ItemKey::ProGloves => "gloves",
        ItemKey::Toolkit => "toolkit",
        ItemKey::Adrenaline => "adrenaline",
        ItemKey::SmokeGrenade => "smoke",
        ItemKey::LockpickSet => "lockpick",
    }
}

/// Mode named by key `k`; unknown keys give Standard.
pub fn from_key_mode(k: &str) -> (m: CrimeMode)
    ensures
        m == mode_of_key(k@),
{
    if same_text(k, "standard") {
        CrimeMode::Standard
    } else if same_text(k, "szybki") {
        CrimeMode::Szybki
    } else if same_text(k, "ostrozny") {
        CrimeMode::Ostrozny
    } else if same_text(k, "shadow") {
        CrimeMode::Shadow
    } else if same_text(k, "hardcore") {
        CrimeMode::Hardcore
    } else if same_text(k, "ryzykowny") {
        CrimeMode::Ryzykowny
    } else if same_text(k, "planowany") {
        CrimeMode::Planowany
    } else if same_text(k, "szalony") {
        CrimeMode::Szalony
    } else {
        CrimeMode::Standard
    }
}

/// Risk tier named by key `k`; unknown keys give Medium.
pub fn from_key_risk(k: &str) -> (r: Risk)
    ensures
        r == risk_of_key(k@),
{
    if same_text(k, "low") {
        Risk::Low
    } else if same_text(k, "medium") {
        Risk::Medium
    } else if same_text(k, "high") {
        Risk::High
    } else if same_text(k, "hardcore") {
        Risk::Hardcore
    } else {
        Risk::Medium
    }
}

/// Item named by key `k`, if any.
pub fn from_key_item(k: &str) -> (r: Option<ItemKey>)
    ensures
        r == item_of_key(k@),
{
    if same_text(k, "laptop") {
        Some(ItemKey::HackerLaptop)
    } else if same_text(k, "gloves") {
        Some(ItemKey::ProGloves)
    } else if same_text(k, "toolkit") {
        Some(ItemKey::Toolkit)
    } else if same_text(k, "adrenaline") {
        Some(ItemKey::Adrenaline)
    } else if same_text(k, "smoke") {
        Some(ItemKey::SmokeGrenade)
    } else if same_text(k, "lockpick") {
        Some(ItemKey::LockpickSet)
    } else {
        None
    }
}

/// The items named by `keys`, in order, skipping unknown keys.
pub open spec fn items_of_keys(keys: Seq<String>) -> Seq<ItemKey>
    decreases keys.len(),
{
    if keys.len() == 0 {
        Seq::empty()
    } else {
        items_of_keys(keys.drop_last()) + match item_of_key(keys.last()@) {
            Some(k) => seq![k],
            None => Seq::empty(),
        }
    }
}

/// Items of a stored loadout, in order; unknown keys are skipped.
pub fn items_from_keys(keys: &[String]) -> (r: Vec<ItemKey>)
    ensures
        r@ == items_of_keys(keys@),
{
    let mut r: Vec<ItemKey> = Vec::new();
    let mut i: usize = 0;
    while i < keys.len()
        invariant
            i <= keys@.len(),
            r@ == items_of_keys(keys@.take(i as int)),
        decreases keys@.len() - i,
    {
        assert(keys@.take(i as int + 1).drop_last() =~= keys@.take(i as int));
        let ghost before = r@;
        match from_key_item(keys[i].as_str()) {
            Some(k) => {
                r.push(k);
                assert(r@ =~= before + seq![k]);
            },
            None => {
                assert(r@ =~= before + Seq::<ItemKey>::empty());
            },
        }
        i += 1;
    }
    assert(keys@.take(i as int) =~= keys@);
    r
}

/// Reading back the key of a mode, a risk tier or an item gives the same
/// mode, tier or item.
pub proof fn lemma_keys_round_trip(m: CrimeMode, r: Risk, k: ItemKey)
    ensures
        mode_of_key(mode_key(m)) == m,
        risk_of_key(risk_key(r)) == r,
        item_of_key(item_key(k)) == Some(k),
{
    reveal_strlit("standard");
    reveal_strlit("szybki");
    reveal_strlit("ostrozny");
    reveal_strlit("shadow");
    reveal_strlit("hardcore");
    reveal_strlit("ryzykowny");
    reveal_strlit("planowany");
    reveal_strlit("szalony");
    reveal_strlit("low");
    reveal_strlit("medium");
    reveal_strlit("high");
    reveal_strlit("laptop");
    reveal_strlit("gloves");
    reveal_strlit("toolkit");
    reveal_strlit("adrenaline");
    reveal_strlit("smoke");
    reveal_strlit("lockpick");
    assert("standard"@[0] == 's' && "standard"@[1] == 't' && "standard"@[2] == 'a');
    assert("szybki"@[0] == 's' && "szybki"@[1] == 'z' && "szybki"@[2] == 'y');
    assert("ostrozny"@[0] == 'o' && "ostrozny"@[1] == 's' && "ostrozny"@[2] == 't');
    assert("shadow"@[0] == 's' && "shadow"@[1] == 'h' && "shadow"@[2] == 'a');
    assert("hardcore"@[0] == 'h' && "hardcore"@[1] == 'a' && "hardcore"@[2] == 'r');
    assert("ryzykowny"@[0] == 'r' && "ryzykowny"@[1] == 'y' && "ryzykowny"@[2] == 'z');
    assert("planowany"@[0] == 'p' && "planowany"@[1] == 'l' && "planowany"@[2] == 'a');
    assert("szalony"@[0] == 's' && "szalony"@[1] == 'z' && "szalony"@[2] == 'a');
    assert("low"@[0] == 'l' && "low"@[1] == 'o' && "low"@[2] == 'w');
    assert("medium"@[0] == 'm' && "medium"@[1] == 'e' && "medium"@[2] == 'd');
    assert("high"@[0] == 'h' && "high"@[1] == 'i' && "high"@[2] == 'g');
    assert("laptop"@[0] == 'l' && "laptop"@[1] == 'a' && "laptop"@[2] == 'p');
    assert("gloves"@[0] == 'g' && "gloves"@[1] == 'l' && "gloves"@[2] == 'o');
    assert("toolkit"@[0] == 't' && "toolkit"@[1] == 'o' && "toolkit"@[2] == 'o');
    assert("adrenaline"@[0] == 'a' && "adrenaline"@[1] == 'd' && "adrenaline"@[2] == 'r');
    assert("smoke"@[0] == 's' && "smoke"@[1] == 'm' && "smoke"@[2] == 'o');
    assert("lockpick"@[0] == 'l' && "lockpick"@[1] == 'o' && "lockpick"@[2] == 'c');
}

} // verus!
