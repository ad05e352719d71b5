//! Item catalog and the aggregation of a loadout into one effect bundle.

use vstd::prelude::*;
use crate::types::{clamp, ItemKey, ONE};

verus! {

/// Combined effect of a loadout. Multipliers and shares are in millionths
/// (`ONE` is 1.0); `success_pp_bonus` is in millionths of a percentage point.
#[derive(Debug, Clone, Copy, PartialEq, Eq, Structural)]
pub struct ItemEffects {
    /// Tolerance multiplier of the reaction check.
    pub qte_window_mult: i64,
    /// Fixed grace added to the reaction window, in milliseconds.
    pub qte_grace_ms: i32,
    /// Change of the sequence length (negative is shorter).
    pub simon_seq_delta: i32,
    /// Time multiplier of the sequence check.
    pub simon_time_mult: i64,
    /// Share added to heist timers.
    pub timer_extend_pct: i64,
    /// Share taken off the final heat.
    pub heat_reduce_pct: i64,
    /// Share added to the payout.
    pub payout_bonus_pct: i64,
    /// Bonus to the success chance.
    pub success_pp_bonus: i64,
    /// Multiplier of the heat an attempt costs.
    pub heat_mult: i64,
    /// Multiplier of the penalty on failure.
    pub fail_penalty_mult: i64,
}

impl ItemEffects {
    /// The bundle of an empty loadout: every multiplier 1.0, every delta 0.
    pub open spec fn neutral() -> ItemEffects {
        ItemEffects {
            qte_window_mult: ONE,
            qte_grace_ms: 0,
            simon_seq_delta: 0,
            simon_time_mult: ONE,
            timer_extend_pct: 0,
            heat_reduce_pct: 0,
            payout_bonus_pct: 0,
            success_pp_bonus: 0,
            heat_mult: ONE,
            fail_penalty_mult: ONE,
        }
    }

    /// Every field lies in its safe band.
    pub open spec fn in_bands(&self) -> bool {
        &&& 900_000 <= self.qte_window_mult <= 1_500_000
        &&& 0 <= self.qte_grace_ms <= 120
        &&& -2 <= self.simon_seq_delta <= 0
        &&& ONE <= self.simon_time_mult <= 1_300_000
        &&& 0 <= self.timer_extend_pct <= 250_000
        &&& 0 <= self.heat_reduce_pct <= 150_000
        &&& 0 <= self.payout_bonus_pct <= 150_000
        &&& 0 <= self.success_pp_bonus <= 150_000
        &&& 800_000 <= self.heat_mult <= 1_200_000
        &&& 700_000 <= self.fail_penalty_mult <= 1_200_000
    }

    /// Bounds the accumulator keeps while items are folded in.
    pub open spec fn accumulating(&self) -> bool {
        &&& 0 <= self.qte_window_mult <= ACC_CEILING
        &&& 0 <= self.qte_grace_ms <= GRACE_CEILING
        &&& -DELTA_FLOOR <= self.simon_seq_delta <= 0
        &&& 0 <= self.simon_time_mult <= ACC_CEILING
        &&& 0 <= self.timer_extend_pct <= ONE
        &&& 0 <= self.heat_reduce_pct <= ONE
        &&& 0 <= self.payout_bonus_pct <= ONE
        &&& 0 <= self.success_pp_bonus <= ONE
        &&& 0 <= self.heat_mult <= ACC_CEILING
        &&& 0 <= self.fail_penalty_mult <= ONE
    }
}

/// Ceiling of a growing multiplier while folding; it lies above every band,
/// so holding the accumulator there does not change the clamped result.
pub const ACC_CEILING: i64 = 2_000_000;

/// Ceiling of the grace accumulator while folding (above its band).
pub const GRACE_CEILING: i32 = 1000;

/// Floor, negated, of the sequence delta while folding (below its band).
pub const DELTA_FLOOR: i32 = 100;

/// `a * f` in millionths, rounded down and held at `ACC_CEILING`.
pub open spec fn grow(a: int, f: int) -> int {
    let p = a * f / (ONE as int);
    if p > ACC_CEILING { ACC_CEILING as int } else { p }
}

/// `a + d`, held at `cap`.
pub open spec fn add_capped(a: int, d: int, cap: int) -> int {
    if a + d > cap { cap } else { a + d }
}

/// One item's fixed contribution folded into the accumulator `e`.
pub open spec fn apply_item(e: ItemEffects, k: ItemKey) -> ItemEffects {
    match k {
        ItemKey::HackerLaptop => ItemEffects {
            qte_grace_ms: add_capped(e.qte_grace_ms as int, 40, GRACE_CEILING as int) as i32,
            qte_window_mult: grow(e.qte_window_mult as int, 1_100_000) as i64,
            ..e
        },
        ItemKey::ProGloves => ItemEffects {
            simon_seq_delta: (if e.simon_seq_delta > -DELTA_FLOOR { e.simon_seq_delta - 1 } else { e.simon_seq_delta as int }) as i32,
            simon_time_mult: grow(e.simon_time_mult as int, 1_050_000) as i64,
            ..e
        },
        ItemKey::Toolkit => ItemEffects {
            payout_bonus_pct: add_capped(e.payout_bonus_pct as int, 50_000, ONE as int) as i64,
            ..e
        },
        ItemKey::Adrenaline => ItemEffects {
            qte_window_mult: grow(e.qte_window_mult as int, 1_050_000) as i64,
            simon_time_mult: grow(e.simon_time_mult as int, 1_080_000) as i64,
            fail_penalty_mult: (e.fail_penalty_mult * 900_000 / (ONE as int)) as i64,
            heat_mult: grow(e.heat_mult as int, 1_050_000) as i64,
            ..e
        },
        ItemKey::SmokeGrenade => ItemEffects {
            heat_reduce_pct: add_capped(e.heat_reduce_pct as int, 80_000, ONE as int) as i64,
            timer_extend_pct: add_capped(e.timer_extend_pct as int, 50_000, ONE as int) as i64,
            ..e
        },
        ItemKey::LockpickSet => ItemEffects {
            simon_seq_delta: (if e.simon_seq_delta > -DELTA_FLOOR { e.simon_seq_delta - 1 } else { e.simon_seq_delta as int }) as i32,
            ..e
        },
    }
}

/// The accumulator after folding in `items` in order, starting from the
/// neutral bundle.
pub open spec fn fold_items(items: Seq<ItemKey>) -> ItemEffects
    decreases items.len(),
{
    if items.len() == 0 {
        ItemEffects::neutral()
    } else {
        apply_item(fold_items(items.drop_last()), items.last())
    }
}

/// Every field limited to its safe band.
pub open spec fn clamp_effects_of(e: ItemEffects) -> ItemEffects {
    ItemEffects {
        qte_window_mult: clamp(e.qte_window_mult as int, 900_000, 1_500_000) as i64,
        qte_grace_ms: clamp(e.qte_grace_ms as int, 0, 120) as i32,
        simon_seq_delta: clamp(e.simon_seq_delta as int, -2, 0) as i32,
        simon_time_mult: clamp(e.simon_time_mult as int, ONE as int, 1_300_000) as i64,
        timer_extend_pct: clamp(e.timer_extend_pct as int, 0, 250_000) as i64,
        heat_reduce_pct: clamp(e.heat_reduce_pct as int, 0, 150_000) as i64,
        payout_bonus_pct: clamp(e.payout_bonus_pct as int, 0, 150_000) as i64,
        success_pp_bonus: clamp(e.success_pp_bonus as int, 0, 150_000) as i64,
        heat_mult: clamp(e.heat_mult as int, 800_000, 1_200_000) as i64,
        fail_penalty_mult: clamp(e.fail_penalty_mult as int, 700_000, 1_200_000) as i64,
    }
}

/// The effect bundle of a loadout.
pub open spec fn aggregate_of(items: Seq<ItemKey>) -> ItemEffects {
    clamp_effects_of(fold_items(items))
}

fn clamp_i64(x: i64, lo: i64, hi: i64) -> (r: i64)
    requires
        lo <= hi,
    ensures
        r == clamp(x as int, lo as int, hi as int),
{
    if x < lo {
        lo
    } else if x > hi {
        hi
    } else {
        x
    }
}

fn clamp_i32(x: i32, lo: i32, hi: i32) -> (r: i32)
    requires
        lo <= hi,
    ensures
        r == clamp(x as int, lo as int, hi as int),
{
    if x < lo {
        lo
    } else if x > hi {
        hi
    } else {
        x
    }
}

fn clamp_effects(e: &mut ItemEffects)
    ensures
        *final(e) == clamp_effects_of(*old(e)),
{
    e.qte_window_mult = clamp_i64(e.qte_window_mult, 900_000, 1_500_000);
    e.qte_grace_ms = clamp_i32(e.qte_grace_ms, 0, 120);
    e.simon_seq_delta = clamp_i32(e.simon_seq_delta, -2, 0);
    e.simon_time_mult = clamp_i64(e.simon_time_mult, ONE, 1_300_000);
    e.timer_extend_pct = clamp_i64(e.timer_extend_pct, 0, 250_000);
    e.heat_reduce_pct = clamp_i64(e.heat_reduce_pct, 0, 150_000);
    e.payout_bonus_pct = clamp_i64(e.payout_bonus_pct, 0, 150_000);
    e.success_pp_bonus = clamp_i64(e.success_pp_bonus, 0, 150_000);
    e.heat_mult = clamp_i64(e.heat_mult, 800_000, 1_200_000);
    e.fail_penalty_mult = clamp_i64(e.fail_penalty_mult, 700_000, 1_200_000);
}

fn grow_by(a: i64, f: i64) -> (r: i64)
    requires
        0 <= a <= ACC_CEILING,
        0 <= f <= 1_100_000,
    ensures
        r == grow(a as int, f as int),
        0 <= r <= ACC_CEILING,
{
    assert(0 <= a * f <= 2_000_000 * 1_100_000) by (nonlinear_arith)
        requires
            0 <= a <= 2_000_000,
            0 <= f <= 1_100_000,
    ;
    let p = a * f / ONE;
    if p > ACC_CEILING {
        ACC_CEILING
    } else {
        p
    }
}

/// Folds one item into the accumulator.
fn apply(e: &mut ItemEffects, k: ItemKey)
    requires
        old(e).accumulating(),
    ensures
        *final(e) == apply_item(*old(e), k),
        final(e).accumulating(),
{
    match k {
        ItemKey::HackerLaptop => {
            e.qte_grace_ms = if e.qte_grace_ms + 40 > GRACE_CEILING { GRACE_CEILING } else { e.qte_grace_ms + 40 };
            e.qte_window_mult = grow_by(e.qte_window_mult, 1_100_000);
        },
        ItemKey::ProGloves => {
            if e.simon_seq_delta > -DELTA_FLOOR {
                e.simon_seq_delta = e.simon_seq_delta - 1;
            }
            e.simon_time_mult = grow_by(e.simon_time_mult, 1_050_000);
        },
        ItemKey::Toolkit => {
            e.payout_bonus_pct = if e.payout_bonus_pct + 50_000 > ONE { ONE } else { e.payout_bonus_pct + 50_000 };
        },
        ItemKey::Adrenaline => {
            e.qte_window_mult = grow_by(e.qte_window_mult, 1_050_000);
            e.simon_time_mult = grow_by(e.simon_time_mult, 1_080_000);
            assert(0 <= e.fail_penalty_mult * 900_000 <= 1_000_000 * 900_000) by (nonlinear_arith)
                requires
                    0 <= e.fail_penalty_mult <= 1_000_000,
            ;
            e.fail_penalty_mult = e.fail_penalty_mult * 900_000 / ONE;
            e.heat_mult = grow_by(e.heat_mult, 1_050_000);
        },
        ItemKey::SmokeGrenade => {
            e.heat_reduce_pct = if e.heat_reduce_pct + 80_000 > ONE { ONE } else { e.heat_reduce_pct + 80_000 };
            e.timer_extend_pct = if e.timer_extend_pct + 50_000 > ONE { ONE } else { e.timer_extend_pct + 50_000 };
        },
        ItemKey::LockpickSet => {
            if e.simon_seq_delta > -DELTA_FLOOR {
                e.simon_seq_delta = e.simon_seq_delta - 1;
            }
        },
    }
}

/// Folds each item's fixed contribution into a neutral accumulator, then
/// limits every field to its safe band.
pub fn aggregate(items: &[ItemKey]) -> (r: ItemEffects)
    ensures
        r == aggregate_of(items@),
        r.in_bands(),
{
    let mut eff = ItemEffects {
        qte_window_mult: ONE,
        qte_grace_ms: 0,
        simon_seq_delta: 0,
        simon_time_mult: ONE,
        timer_extend_pct: 0,
        heat_reduce_pct: 0,
        payout_bonus_pct: 0,
        success_pp_bonus: 0,
        heat_mult: ONE,
        fail_penalty_mult: ONE,
    };
    let mut i: usize = 0;
    while i < items.len()
        invariant
            i <= items@.len(),
            eff == fold_items(items@.take(i as int)),
            eff.accumulating(),
        decreases items@.len() - i,
    {
        assert(items@.take(i as int + 1).drop_last() == items@.take(i as int));
        apply(&mut eff, items[i]);
        i += 1;
    }
    assert(items@.take(i as int) == items@);
    clamp_effects(&mut eff);
    eff
}

/// An empty loadout aggregates to the neutral bundle: every multiplier 1.0
/// and every delta 0.
pub proof fn lemma_aggregate_empty_is_neutral()
    ensures
        aggregate_of(Seq::<ItemKey>::empty()) == ItemEffects::neutral(),
{
}

/// Whatever the loadout, every field of its aggregate lies in its band;
/// clamping leaves an in-band bundle unchanged, so it is idempotent.
pub proof fn lemma_aggregate_in_bands(items: Seq<ItemKey>, e: ItemEffects)
    ensures
        aggregate_of(items).in_bands(),
        clamp_effects_of(e).in_bands(),
        clamp_effects_of(clamp_effects_of(e)) == clamp_effects_of(e),
        e.in_bands() ==> clamp_effects_of(e) == e,
{
}

/// Catalog entry of an item: display name and the progress points that
/// unlock it.
#[derive(Debug, Clone, Copy)]
pub struct ItemMeta {
    pub name: &'static str,
    pub required_pp: u32,
}

/// Progress points needed to unlock an item.
pub open spec fn required_pp_of(k: ItemKey) -> u32 {
    match k {
        ItemKey::LockpickSet => 0,
        ItemKey::ProGloves => 5,
        ItemKey::Toolkit => 10,
        ItemKey::SmokeGrenade => 15,
        ItemKey::HackerLaptop => 22,
        ItemKey::Adrenaline => 30,
    }
}

/// Display name of an item.
pub open spec fn item_name_of(k: ItemKey) -> Seq<char> {
    match k {
        ItemKey::LockpickSet => "Zestaw wytrychów"@,
        ItemKey::ProGloves => "Rękawice PRO"@,
        ItemKey::Toolkit => "Zestaw narzędzi"@,
        ItemKey::SmokeGrenade => "Granat dymny"@,
        ItemKey::HackerLaptop => "Laptop hakera"@,
        ItemKey::Adrenaline => "Adrenalina"@,
    }
}

/// The catalog in unlock order.
pub open spec fn catalog_of() -> Seq<ItemKey> {
    seq![
        ItemKey::LockpickSet,
        ItemKey::ProGloves,
        ItemKey::Toolkit,
        ItemKey::SmokeGrenade,
        ItemKey::HackerLaptop,
        ItemKey::Adrenaline,
    ]
}

/// Catalog entry of `k`.
pub fn item_meta(k: ItemKey) -> (m: ItemMeta)
    ensures
        m.name@ == item_name_of(k),
        m.required_pp == required_pp_of(k),
{
    match k {
        ItemKey::LockpickSet => ItemMeta { name: "Zestaw wytrychów", required_pp: 0 },
        ItemKey::ProGloves => ItemMeta { name: "Rękawice PRO", required_pp: 5 },
        ItemKey::Toolkit => ItemMeta { name: "Zestaw narzędzi", required_pp: 10 },
        ItemKey::SmokeGrenade => ItemMeta { name: "Granat dymny", required_pp: 15 },
        ItemKey::HackerLaptop => ItemMeta { name: "Laptop hakera", required_pp: 22 },
        ItemKey::Adrenaline => ItemMeta { name: "Adrenalina", required_pp: 30 },
    }
}

/// The whole catalog, in unlock order.
pub fn catalog() -> (r: Vec<ItemKey>)
    ensures
        r@ == catalog_of(),
{
    let r = vec![
        ItemKey::LockpickSet,
        ItemKey::ProGloves,
        ItemKey::Toolkit,
        ItemKey::SmokeGrenade,
        ItemKey::HackerLaptop,
        ItemKey::Adrenaline,
    ];
    assert(r@ =~= catalog_of());
    r
}

/// Display name of `k`.
pub fn item_name(k: ItemKey) -> (r: &'static str)
    ensures
        r@ == item_name_of(k),
{
    item_meta(k).name
}

/// Progress points that unlock `k`.
pub fn required_pp(k: ItemKey) -> (r: u32)
    ensures
        r == required_pp_of(k),
{
    item_meta(k).required_pp
}

/// Items unlocked at `pp` progress points, in catalog order: exactly those
/// whose threshold is at most `pp`.
pub fn available_items(pp: u32) -> (r: Vec<ItemKey>)
    ensures
        r@.len() <= catalog_of().len(),
        r@ == catalog_of().take(r@.len() as int),
        forall|k: ItemKey| r@.contains(k) <==> required_pp_of(k) <= pp,
{
    let cat = catalog();
    let mut r: Vec<ItemKey> = Vec::new();
    let mut i: usize = 0;
    while i < cat.len() && required_pp(cat[i]) <= pp
        invariant
            i <= cat@.len(),
            cat@ == catalog_of(),
            r@ == catalog_of().take(i as int),
            forall|j: int| 0 <= j < i ==> required_pp_of(#[trigger] catalog_of()[j]) <= pp,
        decreases cat@.len() - i,
    {
        r.push(cat[i]);
        i += 1;
        assert(r@ =~= catalog_of().take(i as int));
    }
    assert forall|k: ItemKey| r@.contains(k) <==> required_pp_of(k) <= pp by {
        let idx: int = match k {
            ItemKey::LockpickSet => 0,
            ItemKey::ProGloves => 1,
            ItemKey::Toolkit => 2,
            ItemKey::SmokeGrenade => 3,
            ItemKey::HackerLaptop => 4,
            ItemKey::Adrenaline => 5,
        };
        assert(catalog_of()[idx] == k);
        if r@.contains(k) {
            let j = choose|j: int| 0 <= j < r@.len() && r@[j] == k;
            assert(catalog_of()[j] == k);
        }
        if required_pp_of(k) <= pp {
            if idx >= i {
                assert(i < 6);
                assert(required_pp_of(catalog_of()[i as int]) > pp);
                assert(required_pp_of(catalog_of()[i as int]) <= required_pp_of(catalog_of()[idx]));
            }
            assert(r@[idx] == k);
        }
    }
    r
}

} // verus!
