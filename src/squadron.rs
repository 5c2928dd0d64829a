//! Squadrons and the damage model: layered defense pools, carry-over
//! between layers and the pairing bonus of weapons on layers.
use vstd::prelude::*;

use crate::battle::{design_defenses, scale_defenses, BattlePresence, Defenses, FleetStats, Morale, Weapons};
use crate::design::ShipTemplate;

verus! {

/// Damage of weapon type `weapon` against layer `surface` (0 laser / shield,
/// 1 kinetic / armor, 2 explosive / hull): a weapon deals 1.25 times its
/// damage, rounded down, to the layer it is paired with.
pub open spec fn boosted(damage: int, weapon: int, surface: int) -> int {
    if weapon == surface {
        damage * 5 / 4
    } else {
        damage
    }
}

/// Damage that spills over from layer `surface` with the pairing bonus taken
/// back out (times 0.8, rounded down), so the bonus stays on its own layer.
pub open spec fn unboosted(damage: int, weapon: int, surface: int) -> int {
    if weapon == surface {
        damage * 4 / 5
    } else {
        damage
    }
}

/// One weapon component hitting one layer: the layer left over and the damage
/// carried on to the next layer. A depleted layer lets everything through.
pub open spec fn layer_hit(layer: int, damage: int, weapon: int, surface: int) -> (int, int) {
    if layer <= 0 {
        (layer, damage)
    } else {
        let dealt = boosted(damage, weapon, surface);
        if dealt <= layer {
            (layer - dealt, 0)
        } else {
            (0, unboosted(dealt - layer, weapon, surface))
        }
    }
}

/// One weapon component going through shield, then armor, then hull; what
/// is left past the hull is lost.
pub open spec fn weapon_hit(pool: Defenses, damage: int, weapon: int) -> Defenses {
    let (shield, to_armor) = layer_hit(pool.shield as int, damage, weapon, 0);
    let (armor, to_hull) = layer_hit(pool.armor as int, to_armor, weapon, 1);
    let (hull, _) = layer_hit(pool.hull as int, to_hull, weapon, 2);
    Defenses { armor: armor as u64, shield: shield as u64, hull: hull as u64 }
}

/// A defense pool after a volley: laser first, then kinetic, then explosive.
pub open spec fn absorbed(pool: Defenses, w: Weapons) -> Defenses {
    weapon_hit(weapon_hit(weapon_hit(pool, w.laser as int, 0), w.kinetic as int, 1), w.explosive as int, 2)
}

/// Sum of the three layers.
pub open spec fn pool_total(d: Defenses) -> int {
    d.shield + d.armor + d.hull
}

/// Layers only lose points: every layer of `b` is at most that of `a`.
pub open spec fn defenses_le(b: Defenses, a: Defenses) -> bool {
    b.shield <= a.shield && b.armor <= a.armor && b.hull <= a.hull
}

proof fn lemma_layer_hit_bounds(layer: int, damage: int, weapon: int, surface: int)
    requires
        0 <= layer,
        0 <= damage,
    ensures
        0 <= layer_hit(layer, damage, weapon, surface).0 <= layer,
        0 <= layer_hit(layer, damage, weapon, surface).1 <= damage,
{
}

proof fn lemma_weapon_hit_bounds(pool: Defenses, damage: int, weapon: int)
    requires
        0 <= damage,
    ensures
        defenses_le(weapon_hit(pool, damage, weapon), pool),
{
    let (s, c1) = layer_hit(pool.shield as int, damage, weapon, 0);
    lemma_layer_hit_bounds(pool.shield as int, damage, weapon, 0);
    let (a, c2) = layer_hit(pool.armor as int, c1, weapon, 1);
    lemma_layer_hit_bounds(pool.armor as int, c1, weapon, 1);
    lemma_layer_hit_bounds(pool.hull as int, c2, weapon, 2);
}

/// A volley never adds to any layer.
pub proof fn lemma_absorbed_bounds(pool: Defenses, w: Weapons)
    ensures
        defenses_le(absorbed(pool, w), pool),
{
    let p1 = weapon_hit(pool, w.laser as int, 0);
    let p2 = weapon_hit(p1, w.kinetic as int, 1);
    lemma_weapon_hit_bounds(pool, w.laser as int, 0);
    lemma_weapon_hit_bounds(p1, w.kinetic as int, 1);
    lemma_weapon_hit_bounds(p2, w.explosive as int, 2);
}

/// Adds the pairing bonus of a weapon on a layer to its damage.
///
/// weapons: 0 - laser, 1 - kinetic, 2 - explosive
/// surfaces: 0 - shield, 1 - armor, 2 - hull
fn with_modifier(damage: u64, weapon: u8, surface: u8) -> (r: u128)
    ensures
        r == boosted(damage as int, weapon as int, surface as int),
{
    if weapon == surface {
        (damage as u128) * 5 / 4
    } else {
        damage as u128
    }
}

/// Takes the pairing bonus of a weapon on a layer back out of spilled damage.
///
/// weapons: 0 - laser, 1 - kinetic, 2 - explosive
/// surfaces: 0 - shield, 1 - armor, 2 - hull
fn without_modifier(damage: u128, weapon: u8, surface: u8) -> (r: u128)
    requires
        damage <= u64::MAX as int * 2,
    ensures
        r == unboosted(damage as int, weapon as int, surface as int),
{
    if weapon == surface {
        damage * 4 / 5
    } else {
        damage
    }
}

fn hit_layer(layer: u64, damage: u64, weapon: u8, surface: u8) -> (r: (u64, u64))
    ensures
        r.0 == layer_hit(layer as int, damage as int, weapon as int, surface as int).0,
        r.1 == layer_hit(layer as int, damage as int, weapon as int, surface as int).1,
{
    if layer == 0 {
        return (layer, damage);
    }
    let dealt = with_modifier(damage, weapon, surface);
    if dealt <= layer as u128 {
        ((layer as u128 - dealt) as u64, 0)
    } else {
        let carry = without_modifier(dealt - layer as u128, weapon, surface);
        proof {
            lemma_layer_hit_bounds(layer as int, damage as int, weapon as int, surface as int);
        }
        (0, carry as u64)
    }
}

fn hit_with_weapon(pool: Defenses, damage: u64, weapon: u8) -> (r: Defenses)
    ensures
        r == weapon_hit(pool, damage as int, weapon as int),
{
    let (shield, to_armor) = hit_layer(pool.shield, damage, weapon, 0);
    let (armor, to_hull) = hit_layer(pool.armor, to_armor, weapon, 1);
    let (hull, _) = hit_layer(pool.hull, to_hull, weapon, 2);
    Defenses { armor, shield, hull }
}

/// A defense pool after a volley.
pub fn absorb(pool: Defenses, w: &Weapons) -> (r: Defenses)
    ensures
        r == absorbed(pool, *w),
{
    let p = hit_with_weapon(pool, w.laser, 0);
    let p = hit_with_weapon(p, w.kinetic, 1);
    hit_with_weapon(p, w.explosive, 2)
}

/// What a squadron is ordered to be built as: a design and a ship count.
#[derive(Clone, Copy, Debug)]
pub struct SquadronBlueprint {
    pub template: ShipTemplate,
    pub amount: u16,
}

/// A group of ships of one design, with its morale and its place in battle.
#[derive(Clone, Copy, Debug)]
pub struct Squadron {
    pub template: ShipTemplate,
    pub amount: u16,
    pub morale: Morale,
    pub presence: BattlePresence,
}

/// How a squadron comes out of a volley: ships left and the new morale.
/// A hull pool at zero destroys the whole squadron; otherwise the ships left
/// are the ship count times the share of the pool that survived, rounded
/// down, and morale breaks when under 60% of the pool survived.
pub open spec fn damage_outcome(sq: Squadron, w: Weapons) -> (int, Morale) {
    let pool = sq.pool();
    let total = pool_total(pool);
    let after = absorbed(pool, w);
    let remaining = pool_total(after);
    if after.hull == 0 {
        (0, Morale::Broken)
    } else {
        (
            sq.amount * remaining / total,
            if 5 * remaining < 3 * total {
                Morale::Broken
            } else {
                Morale::Normal
            },
        )
    }
}

/// A squadron after a volley: its ships and morale per `damage_outcome`; a
/// squadron left with no ships is gone.
pub open spec fn damaged(sq: Squadron, w: Weapons) -> Squadron {
    let (left, morale) = damage_outcome(sq, w);
    Squadron {
        template: sq.template,
        amount: left as u16,
        morale,
        presence: if left == 0 {
            BattlePresence::Gone
        } else {
            sq.presence
        },
    }
}

pub open spec fn spec_from_blueprint(b: SquadronBlueprint) -> Squadron {
    Squadron {
        template: b.template,
        amount: b.amount,
        morale: Morale::Normal,
        presence: if b.amount == 0 {
            BattlePresence::Gone
        } else {
            BattlePresence::Active
        },
    }
}

impl Squadron {
    /// A squadron with no ships has left the battle for good.
    pub open spec fn wf(self) -> bool {
        self.amount == 0 ==> self.presence == BattlePresence::Gone
    }

    /// The squadron's defense pool: per-ship defenses times the ship count.
    pub open spec fn pool(self) -> Defenses {
        scale_defenses(design_defenses(self.template@), self.amount as int)
    }

    /// Applies a volley to the squadron's defense pool and returns the ships
    /// lost and the new morale; the ship count and morale are updated, and a
    /// squadron with no ships left is marked gone.
    pub fn take_damage(&mut self, weapons: &Weapons) -> (r: (u16, Morale))
        ensures
            0 <= damage_outcome(*old(self), *weapons).0 <= old(self).amount,
            r.0 == old(self).amount - damage_outcome(*old(self), *weapons).0,
            r.1 == damage_outcome(*old(self), *weapons).1,
            *final(self) == damaged(*old(self), *weapons),
    {
        let stats = FleetStats::from_modules(&self.template);
        let pool = stats.defenses.multiply(self.amount);
        let after = absorb(pool, weapons);
        proof {
            lemma_absorbed_bounds(pool, *weapons);
        }
        if after.hull == 0 {
            let lost = self.amount;
            self.amount = 0;
            self.morale = Morale::Broken;
            self.presence = BattlePresence::Gone;
            return (lost, Morale::Broken);
        }
        let total: u128 = pool.shield as u128 + pool.armor as u128 + pool.hull as u128;
        let remaining: u128 = after.shield as u128 + after.armor as u128 + after.hull as u128;
        let amount = self.amount;
        proof {
            lemma_survivors_bounded(amount as int, remaining as int, total as int);
        }
        let left: u128 = (amount as u128) * remaining / total;
        let new_amount = left as u16;
        let morale = if 5 * remaining < 3 * total {
            Morale::Broken
        } else {
            Morale::Normal
        };
        self.amount = new_amount;
        self.morale = morale;
        if new_amount == 0 {
            self.presence = BattlePresence::Gone;
        }
        (amount - new_amount, morale)
    }

    /// A fresh squadron built from a blueprint, in good order; one with no
    /// ships is gone from the start.
    pub fn from_blueprint(blueprint: SquadronBlueprint) -> (r: Self)
        ensures
            r == spec_from_blueprint(blueprint),
            r.wf(),
    {
        Squadron {
            template: blueprint.template,
            amount: blueprint.amount,
            morale: Morale::Normal,
            presence: if blueprint.amount == 0 {
                BattlePresence::Gone
            } else {
                BattlePresence::Active
            },
        }
    }
}

proof fn lemma_survivors_bounded(amount: int, remaining: int, total: int)
    requires
        0 <= amount <= u16::MAX,
        0 <= remaining <= total,
        0 < total <= 3 * u64::MAX,
    ensures
        amount * remaining <= u16::MAX * (3 * u64::MAX),
        0 <= amount * remaining / total <= amount,
{
    assert(amount * remaining <= u16::MAX * (3 * u64::MAX)) by (nonlinear_arith)
        requires
            0 <= amount <= u16::MAX,
            0 <= remaining <= 3 * u64::MAX,
    ;
    assert(amount * remaining <= amount * total) by (nonlinear_arith)
        requires
            0 <= amount,
            0 <= remaining <= total,
    ;
    vstd::arithmetic::div_mod::lemma_div_is_ordered(amount * remaining, amount * total, total);
    vstd::arithmetic::div_mod::lemma_div_by_multiple(amount, total);
    assert(0 <= amount * remaining) by (nonlinear_arith)
        requires
            0 <= amount,
            0 <= remaining,
    ;
    vstd::arithmetic::div_mod::lemma_div_pos_is_pos(amount * remaining, total);
}

pub(crate) proof fn lemma_damage_outcome_bounds(sq: Squadron, w: Weapons)
    ensures
        0 <= damage_outcome(sq, w).0 <= sq.amount,
{
    let pool = sq.pool();
    lemma_absorbed_bounds(pool, w);
    let after = absorbed(pool, w);
    if after.hull != 0 {
        lemma_survivors_bounded(sq.amount as int, pool_total(after), pool_total(pool));
    }
}

/// A pool that holds points in layer `surface` only (0 shield, 1 armor,
/// 2 hull).
pub open spec fn single_layer(pool: Defenses, surface: int) -> bool {
    &&& (surface != 0 ==> pool.shield == 0)
    &&& (surface != 1 ==> pool.armor == 0)
    &&& (surface != 2 ==> pool.hull == 0)
}

/// The points of layer `surface` (0 shield, 1 armor, 2 hull).
pub open spec fn layer_points(pool: Defenses, surface: int) -> int {
    if surface == 0 {
        pool.shield as int
    } else if surface == 1 {
        pool.armor as int
    } else {
        pool.hull as int
    }
}

/// A volley of one weapon type only (0 laser, 1 kinetic, 2 explosive).
pub open spec fn single_weapon(weapon: int, damage: u64) -> Weapons {
    Weapons {
        kinetic: if weapon == 1 { damage } else { 0 },
        laser: if weapon == 0 { damage } else { 0 },
        explosive: if weapon == 2 { damage } else { 0 },
    }
}

/// Points a volley takes off a pool.
pub open spec fn damage_taken(pool: Defenses, w: Weapons) -> int {
    pool_total(pool) - pool_total(absorbed(pool, w))
}

pub open spec fn min(a: int, b: int) -> int {
    if a <= b {
        a
    } else {
        b
    }
}

/// Against a squadron whose pool is all in one layer, the weapon paired with
/// that layer takes 1.25 times its damage off it, rounded down, and any other
/// weapon of the same damage takes that damage, each up to what the layer
/// holds. So while the layer holds out, the paired weapon deals exactly 1.25
/// times what the other does, up to rounding.
pub proof fn lemma_affinity_bonus(sq: Squadron, surface: int, other: int, damage: u64)
    requires
        0 <= surface < 3,
        0 <= other < 3,
        other != surface,
        single_layer(sq.pool(), surface),
    ensures
        damage_taken(sq.pool(), single_weapon(surface, damage)) == min(
            layer_points(sq.pool(), surface),
            damage * 5 / 4,
        ),
        damage_taken(sq.pool(), single_weapon(other, damage)) == min(
            layer_points(sq.pool(), surface),
            damage as int,
        ),
        damage * 5 / 4 <= layer_points(sq.pool(), surface) ==> damage_taken(
            sq.pool(),
            single_weapon(surface, damage),
        ) == damage_taken(sq.pool(), single_weapon(other, damage)) * 5 / 4,
{
}

} // verus!
