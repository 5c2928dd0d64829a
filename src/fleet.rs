//! Fleets: squadron slots, strength and value, and one round of fire.
use vstd::prelude::*;

use crate::battle::{
    add_defenses, add_weapons, design_defenses, design_weapons, no_defenses, no_weapons,
    scale_defenses, scale_weapons, split_weapons, BattlePresence, Defenses, FleetBattleRound,
    FleetStats, Morale, SquadronRecord, Weapons,
};
use crate::building::{find_building, has_building, Building, BuildingType, BUILDINGS_ON_PLANET};
use crate::design::{design_buildable, design_cost, lemma_design_cost_monotone, ship_can_be_built, ship_quote, spec_starting_ship, starting_ship};
use crate::resource::{add_resources, no_resources, resources_le, Resources};
use crate::squadron::{
    damaged, lemma_absorbed_bounds, lemma_damage_outcome_bounds, pool_total,
    spec_from_blueprint, Squadron, SquadronBlueprint,
};
use crate::utilities::sat_mul;

verus! {

/// Squadron slots in a fleet.
pub const SQUADRONS_IN_FLEET: usize = 9;

/// Why a fleet order was refused.
#[derive(Clone, Copy, Debug, PartialEq, Eq, Structural)]
pub enum FleetErrorCode {
    /// A module of the design needs a building the planet lacks.
    CantBuildMissingBuilding,
    /// The planet has no shipyard.
    NoShipyardOnPlanet,
    /// The fleet belongs to someone else.
    NoAuthority,
    /// No fleet is present at the position.
    FleetNotPresent,
    /// The destination already holds a fleet.
    IllegalMoveAlreadyOccupied,
}

/// One slot's part in a round: the slot after taking `dmg` and its record.
fn slot_round(slot: Option<Squadron>, dmg: &Weapons) -> (r: (Option<Squadron>, SquadronRecord))
    requires
        slot matches Some(sq) ==> sq.wf(),
    ensures
        r.0 == slot_after_round(slot, *dmg),
        r.1 == slot_record(slot, r.0),
        r.0 matches Some(sq) ==> sq.wf(),
{
    match slot {
        None => (None, SquadronRecord { losses: 0, morale: Morale::Broken, presence: BattlePresence::Gone }),
        Some(squadron) => {
            if squadron.presence == BattlePresence::Gone {
                (slot, SquadronRecord { losses: 0, morale: squadron.morale, presence: squadron.presence })
            } else {
                let mut sq = squadron;
                let is_retreating = sq.morale == Morale::Broken;
                let (loss, new_morale) = sq.take_damage(dmg);
                let new_presence = if is_retreating || sq.amount == 0 {
                    BattlePresence::Gone
                } else if new_morale == Morale::Broken {
                    BattlePresence::Retreating
                } else {
                    BattlePresence::Active
                };
                sq.presence = new_presence;
                (Some(sq), SquadronRecord { losses: loss, morale: new_morale, presence: new_presence })
            }
        },
    }
}

/// Construction value of what a slot holds.
pub open spec fn slot_value(slot: Option<Squadron>) -> Resources {
    match slot {
        Some(sq) => design_cost(sq.template@, sq.amount as int),
        None => no_resources(),
    }
}

/// Construction value of all squadrons in the slots, whatever their presence.
pub open spec fn slots_value(slots: Seq<Option<Squadron>>) -> Resources
    decreases slots.len(),
{
    if slots.len() == 0 {
        no_resources()
    } else {
        add_resources(slots_value(slots.drop_last()), slot_value(slots.last()))
    }
}

/// Economic value of a fleet: what it would cost to build its squadrons.
pub open spec fn fleet_value(f: FleetModel) -> Resources {
    slots_value(f.squadrons)
}

/// The identity of a fleet's owner: the 32 bytes of an account key.
pub type OwnerKey = [u8; 32];

/// A fleet occupying a map position: up to nine squadron slots, each of which
/// may be empty.
#[derive(Clone, Copy, Debug)]
pub struct Fleet {
    pub owner: OwnerKey,
    pub is_present: bool,
    pub squadrons: [Option<Squadron>; SQUADRONS_IN_FLEET],
}

/// A fleet as a mathematical value.
pub struct FleetModel {
    pub owner: Seq<u8>,
    pub is_present: bool,
    pub squadrons: Seq<Option<Squadron>>,
}

impl View for Fleet {
    type V = FleetModel;

    open spec fn view(&self) -> FleetModel {
        FleetModel { owner: self.owner@, is_present: self.is_present, squadrons: self.squadrons@ }
    }
}

/// The slot holds a squadron that is still in the battle.
pub open spec fn slot_in_battle(slot: Option<Squadron>) -> bool {
    slot matches Some(sq) && sq.presence != BattlePresence::Gone
}

/// Number of slots that hold a squadron still in the battle.
pub open spec fn count_in_battle(slots: Seq<Option<Squadron>>) -> nat
    decreases slots.len(),
{
    if slots.len() == 0 {
        0
    } else {
        count_in_battle(slots.drop_last()) + if slot_in_battle(slots.last()) {
            1nat
        } else {
            0nat
        }
    }
}

/// Presence after a round: a squadron that was already fleeing, or has no
/// ships left, is gone; one whose morale broke this round starts retreating;
/// any other stays active.
pub open spec fn next_presence(morale_before: Morale, ships_left: int, morale_after: Morale) -> BattlePresence {
    if morale_before == Morale::Broken || ships_left == 0 {
        BattlePresence::Gone
    } else if morale_after == Morale::Broken {
        BattlePresence::Retreating
    } else {
        BattlePresence::Active
    }
}

/// A slot after it took its share `share` of a round's fire. Empty slots
/// and squadrons that are gone are left as they are.
pub open spec fn slot_after_round(slot: Option<Squadron>, share: Weapons) -> Option<Squadron> {
    match slot {
        None => None,
        Some(sq) => if sq.presence == BattlePresence::Gone {
            Some(sq)
        } else {
            let d = damaged(sq, share);
            Some(
                Squadron {
                    template: d.template,
                    amount: d.amount,
                    morale: d.morale,
                    presence: next_presence(sq.morale, d.amount as int, d.morale),
                },
            )
        },
    }
}

/// The round record of one slot, from its value before and after the round.
/// An empty slot reads as broken and gone with no losses.
pub open spec fn slot_record(before: Option<Squadron>, after: Option<Squadron>) -> SquadronRecord {
    match (before, after) {
        (Some(b), Some(a)) => SquadronRecord {
            losses: (b.amount - a.amount) as u16,
            morale: a.morale,
            presence: a.presence,
        },
        _ => SquadronRecord { losses: 0, morale: Morale::Broken, presence: BattlePresence::Gone },
    }
}

/// Each squadron's share of incoming fire: an even split over the squadrons
/// still in the battle.
pub open spec fn fire_share(f: FleetModel, attack: Weapons) -> Weapons {
    split_weapons(attack, count_in_battle(f.squadrons) as int)
}

/// A fleet after taking a round of fire.
pub open spec fn fleet_after_round(f: FleetModel, attack: Weapons) -> FleetModel {
    FleetModel {
        owner: f.owner,
        is_present: f.is_present,
        squadrons: Seq::new(
            f.squadrons.len(),
            |i: int| slot_after_round(f.squadrons[i], fire_share(f, attack)),
        ),
    }
}

/// What a round of fire did to each slot of a fleet.
pub open spec fn round_records(f: FleetModel, attack: Weapons) -> Seq<SquadronRecord> {
    let after = fleet_after_round(f, attack);
    Seq::new(f.squadrons.len(), |i: int| slot_record(f.squadrons[i], after.squadrons[i]))
}

/// A fleet has nothing left to fight with when no slot holds a squadron still
/// in the battle.
pub open spec fn fleet_in_retreat(f: FleetModel) -> bool {
    forall|i: int| 0 <= i < f.squadrons.len() ==> !slot_in_battle(#[trigger] f.squadrons[i])
}

/// Strength a slot brings to the fight: only an active squadron counts, at
/// per-ship stats times its ship count.
pub open spec fn slot_weapons(slot: Option<Squadron>) -> Weapons {
    match slot {
        Some(sq) => if sq.presence == BattlePresence::Active {
            scale_weapons(design_weapons(sq.template@), sq.amount as int)
        } else {
            no_weapons()
        },
        None => no_weapons(),
    }
}

pub open spec fn slot_defenses(slot: Option<Squadron>) -> Defenses {
    match slot {
        Some(sq) => if sq.presence == BattlePresence::Active {
            scale_defenses(design_defenses(sq.template@), sq.amount as int)
        } else {
            no_defenses()
        },
        None => no_defenses(),
    }
}

/// Weapons of all active squadrons of the slots, summed.
pub open spec fn slots_weapons(slots: Seq<Option<Squadron>>) -> Weapons
    decreases slots.len(),
{
    if slots.len() == 0 {
        no_weapons()
    } else {
        add_weapons(slots_weapons(slots.drop_last()), slot_weapons(slots.last()))
    }
}

/// Defenses of all active squadrons of the slots, summed.
pub open spec fn slots_defenses(slots: Seq<Option<Squadron>>) -> Defenses
    decreases slots.len(),
{
    if slots.len() == 0 {
        no_defenses()
    } else {
        add_defenses(slots_defenses(slots.drop_last()), slot_defenses(slots.last()))
    }
}

impl FleetModel {
    /// Every squadron of the fleet keeps the squadron invariant.
    pub open spec fn wf(self) -> bool {
        &&& self.squadrons.len() == SQUADRONS_IN_FLEET
        &&& forall|i: int|
            0 <= i < self.squadrons.len() ==> (#[trigger] self.squadrons[i] matches Some(sq) ==> sq.wf())
    }
}

impl Fleet {
    pub open spec fn wf(&self) -> bool {
        self@.wf()
    }

    /// Whether the fleet is present, that is whether its map position holds
    /// an active fleet.
    pub fn is_present(&self) -> (r: bool)
        ensures
            r == self.is_present,
    {
        self.is_present
    }

    /// Whether the fleet belongs to `owner`.
    pub fn is_owned_by(&self, owner: &OwnerKey) -> (r: bool)
        ensures
            r == (self.owner@ == owner@),
    {
        let mut i: usize = 0;
        while i < 32
            invariant
                i <= 32,
                forall|j: int| 0 <= j < i ==> self.owner[j] == owner[j],
            decreases 32 - i,
        {
            if self.owner[i] != owner[i] {
                return false;
            }
            i = i + 1;
        }
        assert(self.owner@ =~= owner@);
        true
    }

    /// Hands the fleet to a new owner and marks it present.
    pub fn set_presence(&mut self, new_owner: OwnerKey)
        ensures
            final(self).owner == new_owner,
            final(self).is_present,
            final(self).squadrons == old(self).squadrons,
    {
        self.owner = new_owner;
        self.is_present = true;
    }

    /// Clears the fleet: no owner, not present, every slot empty.
    pub fn reset(&mut self)
        ensures
            final(self).owner@ == Seq::new(32, |i: int| 0u8),
            !final(self).is_present,
            forall|i: int| 0 <= i < SQUADRONS_IN_FLEET ==> #[trigger] final(self).squadrons[i] is None,
            final(self).wf(),
    {
        self.is_present = false;
        self.owner = [0u8; 32];
        self.squadrons = [None; SQUADRONS_IN_FLEET];
        assert(self.owner@ =~= Seq::new(32, |i: int| 0u8));
    }

    /// Takes over another fleet's owner, presence and squadrons.
    pub fn replace_with_another_fleet(&mut self, new_fleet: &Fleet)
        ensures
            final(self)@ == new_fleet@,
    {
        self.owner = new_fleet.owner;
        self.squadrons = new_fleet.squadrons;
        self.is_present = new_fleet.is_present;
    }

    /// The fleet's strength in battle: per-ship weapons and defenses times the
    /// ship count, summed over the active squadrons. Squadrons that are
    /// retreating or gone add nothing.
    pub fn get_battle_strength(&self) -> (r: FleetStats)
        ensures
            r.weapons == slots_weapons(self.squadrons@),
            r.defenses == slots_defenses(self.squadrons@),
    {
        let mut weapons = Weapons { kinetic: 0, laser: 0, explosive: 0 };
        let mut defenses = Defenses { armor: 0, shield: 0, hull: 0 };
        let mut i: usize = 0;
        while i < SQUADRONS_IN_FLEET
            invariant
                i <= SQUADRONS_IN_FLEET,
                weapons == slots_weapons(self.squadrons@.take(i as int)),
                defenses == slots_defenses(self.squadrons@.take(i as int)),
            decreases SQUADRONS_IN_FLEET - i,
        {
            let mut w = Weapons { kinetic: 0, laser: 0, explosive: 0 };
            let mut d = Defenses { armor: 0, shield: 0, hull: 0 };
            if let Some(squadron) = self.squadrons[i] {
                if squadron.presence == BattlePresence::Active {
                    let stats = FleetStats::from_modules(&squadron.template);
                    w = stats.weapons.multiply(squadron.amount);
                    d = stats.defenses.multiply(squadron.amount);
                }
            }
            weapons = Weapons {
                kinetic: weapons.kinetic.saturating_add(w.kinetic),
                laser: weapons.laser.saturating_add(w.laser),
                explosive: weapons.explosive.saturating_add(w.explosive),
            };
            defenses = Defenses {
                armor: defenses.armor.saturating_add(d.armor),
                shield: defenses.shield.saturating_add(d.shield),
                hull: defenses.hull.saturating_add(d.hull),
            };
            assert(self.squadrons@.take(i + 1).drop_last() =~= self.squadrons@.take(i as int));
            i = i + 1;
        }
        assert(self.squadrons@.take(SQUADRONS_IN_FLEET as int) =~= self.squadrons@);
        FleetStats { weapons, defenses }
    }

    /// Whether every squadron of the fleet can be built on a planet with
    /// these buildings.
    pub fn can_be_built(&self, holding_buildings: [Building; BUILDINGS_ON_PLANET]) -> (r: Result<(), FleetErrorCode>)
        ensures
            r is Ok <==> forall|i: int|
                0 <= i < SQUADRONS_IN_FLEET && (#[trigger] self.squadrons[i]) is Some ==> design_buildable(
                    self.squadrons[i]->0.template@,
                    holding_buildings@,
                ),
            r is Err ==> r == Err::<(), FleetErrorCode>(FleetErrorCode::CantBuildMissingBuilding),
    {
        let mut i: usize = 0;
        while i < SQUADRONS_IN_FLEET
            invariant
                i <= SQUADRONS_IN_FLEET,
                forall|j: int|
                    0 <= j < i && (#[trigger] self.squadrons[j]) is Some ==> design_buildable(
                        self.squadrons[j]->0.template@,
                        holding_buildings@,
                    ),
            decreases SQUADRONS_IN_FLEET - i,
        {
            if let Some(squadron) = self.squadrons[i] {
                if ship_can_be_built(squadron.template, holding_buildings).is_err() {
                    return Err(FleetErrorCode::CantBuildMissingBuilding);
                }
            }
            i = i + 1;
        }
        Ok(())
    }

    /// What it costs to build this fleet at a planet holding with these
    /// buildings: its economic value. Refused when the planet has no shipyard,
    /// or lacks a building that one of the designs needs.
    pub fn build_cost(&self, holding_buildings: [Building; BUILDINGS_ON_PLANET]) -> (r: Result<Resources, FleetErrorCode>)
        ensures
            !has_building(holding_buildings@, BuildingType::Shipyard) ==> r == Err::<Resources, FleetErrorCode>(
                FleetErrorCode::NoShipyardOnPlanet,
            ),
            has_building(holding_buildings@, BuildingType::Shipyard) ==> (r is Ok <==> forall|i: int|
                0 <= i < SQUADRONS_IN_FLEET && (#[trigger] self.squadrons[i]) is Some ==> design_buildable(
                    self.squadrons[i]->0.template@,
                    holding_buildings@,
                )),
            r is Ok ==> r == Ok::<Resources, FleetErrorCode>(fleet_value(self@)),
            has_building(holding_buildings@, BuildingType::Shipyard) && r is Err ==> r == Err::<
                Resources,
                FleetErrorCode,
            >(FleetErrorCode::CantBuildMissingBuilding),
    {
        if find_building(&holding_buildings, BuildingType::Shipyard).is_none() {
            return Err(FleetErrorCode::NoShipyardOnPlanet);
        }
        match self.can_be_built(holding_buildings) {
            Err(e) => Err(e),
            Ok(()) => Ok(self.get_quote()),
        }
    }

    /// Economic value of the fleet: the cost of building every squadron it
    /// holds, at its current ship count.
    pub fn get_quote(&self) -> (r: Resources)
        ensures
            r == fleet_value(self@),
    {
        let mut quote = Resources { igt: 0, metal: 0, crystal: 0, chemical: 0, fuel: 0 };
        let mut i: usize = 0;
        while i < SQUADRONS_IN_FLEET
            invariant
                i <= SQUADRONS_IN_FLEET,
                quote == slots_value(self.squadrons@.take(i as int)),
            decreases SQUADRONS_IN_FLEET - i,
        {
            let mut part = Resources { igt: 0, metal: 0, crystal: 0, chemical: 0, fuel: 0 };
            if let Some(squadron) = self.squadrons[i] {
                part = ship_quote(&squadron.template, squadron.amount);
            }
            quote = quote.sum(part);
            assert(self.squadrons@.take(i + 1).drop_last() =~= self.squadrons@.take(i as int));
            i = i + 1;
        }
        assert(self.squadrons@.take(SQUADRONS_IN_FLEET as int) =~= self.squadrons@);
        quote
    }

    /// Turns the fleet into a player's first fleet: three ships of the
    /// starting design in the first slot, owned by `owner` and present.
    pub fn convert_to_starting_fleet(&mut self, affinity: u8, owner: OwnerKey)
        ensures
            final(self).owner == owner,
            final(self).is_present,
            final(self).squadrons[0] matches Some(sq) && sq.template@ == spec_starting_ship(affinity)
                && sq.amount == 3 && sq.morale == Morale::Normal && sq.presence == BattlePresence::Active,
            forall|i: int| 1 <= i < SQUADRONS_IN_FLEET ==> #[trigger] final(self).squadrons[i] is None,
            final(self).wf(),
    {
        let mut squadrons: [Option<Squadron>; SQUADRONS_IN_FLEET] = [None; SQUADRONS_IN_FLEET];
        let template = starting_ship(affinity);
        squadrons[0] = Some(
            Squadron { template, amount: 3, morale: Morale::Normal, presence: BattlePresence::Active },
        );
        self.squadrons = squadrons;
        self.is_present = true;
        self.owner = owner;
    }

    /// Fills the slots from blueprints: each blueprint becomes a squadron in
    /// good order in the same slot; slots without one are emptied.
    pub fn build_from_template(&mut self, fleet_template: [Option<SquadronBlueprint>; SQUADRONS_IN_FLEET])
        ensures
            final(self).owner == old(self).owner,
            final(self).is_present == old(self).is_present,
            forall|i: int|
                0 <= i < SQUADRONS_IN_FLEET ==> #[trigger] final(self).squadrons[i] == match fleet_template[i] {
                    Some(b) => Some(spec_from_blueprint(b)),
                    None => None,
                },
            final(self).wf(),
    {
        let mut full_squadrons: [Option<Squadron>; SQUADRONS_IN_FLEET] = [None; SQUADRONS_IN_FLEET];
        let mut i: usize = 0;
        while i < SQUADRONS_IN_FLEET
            invariant
                i <= SQUADRONS_IN_FLEET,
                forall|j: int|
                    0 <= j < i ==> #[trigger] full_squadrons[j] == match fleet_template[j] {
                        Some(b) => Some(spec_from_blueprint(b)),
                        None => None,
                    },
                forall|j: int| i <= j < SQUADRONS_IN_FLEET ==> #[trigger] full_squadrons[j] is None,
            decreases SQUADRONS_IN_FLEET - i,
        {
            if let Some(blueprint) = fleet_template[i] {
                full_squadrons[i] = Some(Squadron::from_blueprint(blueprint));
            }
            i = i + 1;
        }
        self.squadrons = full_squadrons;
        assert(self@.wf());
    }

    /// Takes one round of incoming fire. The fire is split evenly over the
    /// squadrons still in the battle (the remainder of the division is lost),
    /// each of them takes its share, and its presence moves on: a squadron
    /// that was already broken, or has no ships left, is gone; one whose
    /// morale broke now retreats; any other stays active. Returns what the
    /// round did to each slot.
    pub fn take_losses(&mut self, attack: &Weapons) -> (r: FleetBattleRound)
        requires
            old(self).wf(),
        ensures
            final(self)@ == fleet_after_round(old(self)@, *attack),
            r@ == round_records(old(self)@, *attack),
            final(self).wf(),
            fleet_evolves(old(self)@, final(self)@),
    {
        let mut losses = [0u16; SQUADRONS_IN_FLEET];
        let mut morale = [Morale::Broken; SQUADRONS_IN_FLEET];
        let mut presence = [BattlePresence::Gone; SQUADRONS_IN_FLEET];
        let mut active_squadrons: u8 = 0;
        let mut i: usize = 0;
        while i < SQUADRONS_IN_FLEET
            invariant
                i <= SQUADRONS_IN_FLEET,
                active_squadrons <= i,
                active_squadrons == count_in_battle(self.squadrons@.take(i as int)),
            decreases SQUADRONS_IN_FLEET - i,
        {
            if let Some(squadron) = self.squadrons[i] {
                if squadron.presence != BattlePresence::Gone {
                    active_squadrons = active_squadrons + 1;
                }
            }
            assert(self.squadrons@.take(i + 1).drop_last() =~= self.squadrons@.take(i as int));
            i = i + 1;
        }
        assert(self.squadrons@.take(SQUADRONS_IN_FLEET as int) =~= self.squadrons@);
        let dmg = attack.divide(active_squadrons);
        let ghost before = self@;
        assert(dmg == fire_share(before, *attack));
        let empty = SquadronRecord { losses: 0, morale: Morale::Broken, presence: BattlePresence::Gone };
        let mut records = [empty; SQUADRONS_IN_FLEET];
        let mut i: usize = 0;
        while i < SQUADRONS_IN_FLEET
            invariant
                i <= SQUADRONS_IN_FLEET,
                before.wf(),
                self.owner@ == before.owner,
                self.is_present == before.is_present,
                forall|j: int|
                    0 <= j < i ==> #[trigger] self.squadrons@[j] == slot_after_round(before.squadrons[j], dmg),
                forall|j: int| i <= j < SQUADRONS_IN_FLEET ==> #[trigger] self.squadrons@[j] == before.squadrons[j],
                forall|j: int|
                    0 <= j < i ==> #[trigger] records@[j] == slot_record(
                        before.squadrons[j],
                        slot_after_round(before.squadrons[j], dmg),
                    ),
            decreases SQUADRONS_IN_FLEET - i,
        {
            assert(self.squadrons@[i as int] == before.squadrons[i as int]);
            assert(before.squadrons[i as int] matches Some(sq) ==> sq.wf());
            let (slot, record) = slot_round(self.squadrons[i], &dmg);
            self.squadrons[i] = slot;
            records[i] = record;
            i = i + 1;
        }
        proof {
            lemma_round_only_takes_ships(before, *attack);
        }
        let ghost after = fleet_after_round(before, *attack);
        let mut i: usize = 0;
        while i < SQUADRONS_IN_FLEET
            invariant
                i <= SQUADRONS_IN_FLEET,
                forall|j: int|
                    0 <= j < i ==> (SquadronRecord {
                        losses: #[trigger] losses[j],
                        morale: morale[j],
                        presence: presence[j],
                    }) == records@[j],
            decreases SQUADRONS_IN_FLEET - i,
        {
            losses[i] = records[i].losses;
            morale[i] = records[i].morale;
            presence[i] = records[i].presence;
            i = i + 1;
        }
        let r = FleetBattleRound { losses, morale, presence };
        assert(self@.squadrons =~= after.squadrons);
        assert(r@ =~= round_records(before, *attack));
        r
    }

    /// Whether the fleet has nothing left to fight with: no slot holds a
    /// squadron that is still in the battle.
    pub fn in_retreat(&self) -> (r: bool)
        ensures
            r == fleet_in_retreat(self@),
    {
        let mut i: usize = 0;
        while i < SQUADRONS_IN_FLEET
            invariant
                i <= SQUADRONS_IN_FLEET,
                forall|j: int| 0 <= j < i ==> !slot_in_battle(#[trigger] self.squadrons@[j]),
            decreases SQUADRONS_IN_FLEET - i,
        {
            if let Some(squadron) = self.squadrons[i] {
                if squadron.presence != BattlePresence::Gone {
                    assert(slot_in_battle(self@.squadrons[i as int]));
                    return false;
                }
            }
            i = i + 1;
        }
        assert(forall|j: int| 0 <= j < SQUADRONS_IN_FLEET ==> self@.squadrons[j] == self.squadrons@[j]);
        true
    }
}

/// A slot can only lose ships over time: it keeps its occupancy and design,
/// its ship count does not grow, and a squadron that is gone stays exactly
/// as it was.
pub open spec fn slot_evolves(before: Option<Squadron>, after: Option<Squadron>) -> bool {
    match (before, after) {
        (None, None) => true,
        (Some(b), Some(a)) => {
            &&& a.template == b.template
            &&& a.amount <= b.amount
            &&& b.presence == BattlePresence::Gone ==> a == b
        },
        _ => false,
    }
}

/// `after` is `before` with, at most, ships lost and squadrons gone.
pub open spec fn fleet_evolves(before: FleetModel, after: FleetModel) -> bool {
    &&& after.owner == before.owner
    &&& after.is_present == before.is_present
    &&& after.squadrons.len() == before.squadrons.len()
    &&& forall|i: int|
        0 <= i < before.squadrons.len() ==> slot_evolves(
            #[trigger] before.squadrons[i],
            after.squadrons[i],
        )
}

/// One round of fire keeps a well-formed fleet well formed, no squadron's
/// ship count grows, a squadron that is gone stays gone with its ships as
/// they were, and its record shows no losses; the record of every squadron
/// shows exactly the ships it lost.
pub proof fn lemma_round_only_takes_ships(f: FleetModel, attack: Weapons)
    requires
        f.wf(),
    ensures
        fleet_after_round(f, attack).wf(),
        fleet_evolves(f, fleet_after_round(f, attack)),
        forall|i: int|
            0 <= i < f.squadrons.len() && (#[trigger] f.squadrons[i]) is Some ==> round_records(f, attack)[i].losses
                == f.squadrons[i]->0.amount - fleet_after_round(f, attack).squadrons[i]->0.amount,
        forall|i: int|
            0 <= i < f.squadrons.len() && (#[trigger] f.squadrons[i]) is Some && f.squadrons[i]->0.presence
                == BattlePresence::Gone ==> round_records(f, attack)[i].losses == 0
                && fleet_after_round(f, attack).squadrons[i]->0.presence == BattlePresence::Gone,
{
    let share = fire_share(f, attack);
    let after = fleet_after_round(f, attack);
    assert forall|i: int| 0 <= i < f.squadrons.len() implies slot_evolves(
        #[trigger] f.squadrons[i],
        after.squadrons[i],
    ) && (after.squadrons[i] matches Some(sq) ==> sq.wf()) && (f.squadrons[i] is Some ==> round_records(
        f,
        attack,
    )[i].losses == f.squadrons[i]->0.amount - after.squadrons[i]->0.amount) by {
        if let Some(sq) = f.squadrons[i] {
            lemma_damage_outcome_bounds(sq, share);
        }
    }
}

/// Whether a volley carries any damage at all.
pub open spec fn weapons_nonzero(w: Weapons) -> bool {
    w.kinetic > 0 || w.laser > 0 || w.explosive > 0
}

/// A squadron whose design adds up to no defense at all is destroyed by the
/// first round in which it takes any damage: all its ships are lost, its
/// morale is broken and it is gone.
pub proof fn lemma_zero_pool_destroyed(f: FleetModel, attack: Weapons, i: int)
    requires
        f.wf(),
        0 <= i < f.squadrons.len(),
        slot_in_battle(f.squadrons[i]),
        pool_total(design_defenses(f.squadrons[i]->0.template@)) == 0,
        weapons_nonzero(fire_share(f, attack)),
    ensures
        fleet_after_round(f, attack).squadrons[i]->0.amount == 0,
        fleet_after_round(f, attack).squadrons[i]->0.morale == Morale::Broken,
        fleet_after_round(f, attack).squadrons[i]->0.presence == BattlePresence::Gone,
        round_records(f, attack)[i].losses == f.squadrons[i]->0.amount,
{
    let sq = f.squadrons[i]->0;
    let share = fire_share(f, attack);
    let per_ship = design_defenses(sq.template@);
    assert(per_ship.hull == 0);
    assert(sat_mul(per_ship.hull as int, sq.amount as int) == 0);
    lemma_absorbed_bounds(sq.pool(), share);
    assert(sq.pool().hull == 0);
}

/// Losing ships never raises a fleet's value: if every slot of `after`
/// evolved from the same slot of `before`, `after` is worth at most as much
/// of every resource.
pub proof fn lemma_value_never_grows(before: Seq<Option<Squadron>>, after: Seq<Option<Squadron>>)
    requires
        before.len() == after.len(),
        forall|i: int| 0 <= i < before.len() ==> slot_evolves(#[trigger] before[i], after[i]),
    ensures
        resources_le(slots_value(after), slots_value(before)),
    decreases before.len(),
{
    if before.len() > 0 {
        let n = before.len() - 1;
        assert forall|i: int| 0 <= i < n implies slot_evolves(
            #[trigger] before.drop_last()[i],
            after.drop_last()[i],
        ) by {
            assert(slot_evolves(before[i], after[i]));
        }
        lemma_value_never_grows(before.drop_last(), after.drop_last());
        assert(slot_evolves(before[n], after[n]));
        if let Some(b) = before.last() {
            lemma_design_cost_monotone(b.template@, after.last()->0.amount as int, b.amount as int);
        }
    }
}

/// Losing ships happens in steps: two evolutions in a row are one evolution.
pub proof fn lemma_evolves_transitive(a: FleetModel, b: FleetModel, c: FleetModel)
    requires
        fleet_evolves(a, b),
        fleet_evolves(b, c),
    ensures
        fleet_evolves(a, c),
{
    assert forall|i: int| 0 <= i < a.squadrons.len() implies slot_evolves(
        #[trigger] a.squadrons[i],
        c.squadrons[i],
    ) by {
        assert(slot_evolves(a.squadrons[i], b.squadrons[i]));
        assert(slot_evolves(b.squadrons[i], c.squadrons[i]));
    }
}

} // verus!
