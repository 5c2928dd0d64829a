//! Ship designs: the module catalogue, per-module stats and costs, and what
//! a design needs to be built.
use vstd::prelude::*;

use crate::battle::{no_defenses, no_weapons, Defenses, Morale, Weapons};
use crate::building::{find_building, has_building, Building, BuildingType, BUILDINGS_ON_PLANET};
use crate::fleet::FleetErrorCode;
use crate::resource::{add_resources, no_resources, resources_le, scale_resources, Resources};
use crate::utilities::{calculate_upgrade_cost, grown_cost, level_steps, sat_add, sat_mul};

verus! {

/// Module slots on a ship design.
pub const MODULES_ON_SHIP: usize = 6;

/// Growth of a module's resource cost per level: a factor of
/// `MODULE_GROWTH_NUM / MODULE_GROWTH_DEN`.
pub const MODULE_GROWTH_NUM: u64 = 16;

pub const MODULE_GROWTH_DEN: u64 = 10;

/// The kinds of module a ship slot can hold.
#[derive(Clone, Copy, Debug, PartialEq, Eq, Structural)]
pub enum ShipModuleType {
    Empty,
    Rockets,
    MachineGun,
    Lasers,
    HardenedHull,
    ShieldBooster,
    AdditionalArmor,
    HaulingBay,
    TargetingSystems,
    MiningDrill,
    LandingPods,
}

/// The building a module of kind `t` needs on the planet, if any.
pub open spec fn required_building(t: ShipModuleType) -> Option<BuildingType> {
    match t {
        ShipModuleType::Empty => None,
        ShipModuleType::Rockets => Some(BuildingType::ChemicalRefinery),
        ShipModuleType::MachineGun => Some(BuildingType::MetalIndustry),
        ShipModuleType::Lasers => Some(BuildingType::CrystalLabs),
        ShipModuleType::HardenedHull => Some(BuildingType::CrystalLabs),
        ShipModuleType::ShieldBooster => Some(BuildingType::MetalIndustry),
        ShipModuleType::AdditionalArmor => Some(BuildingType::ChemicalRefinery),
        ShipModuleType::HaulingBay => None,
        ShipModuleType::TargetingSystems => Some(BuildingType::AstralNavyHQ),
        ShipModuleType::MiningDrill => None,
        ShipModuleType::LandingPods => Some(BuildingType::AstralNavyHQ),
    }
}

/// A module of kind `t` can be built among `buildings`.
pub open spec fn module_buildable(t: ShipModuleType, buildings: Seq<Building>) -> bool {
    match required_building(t) {
        Some(b) => has_building(buildings, b),
        None => true,
    }
}

/// Every module of a design can be built among `buildings`.
pub open spec fn design_buildable(modules: Seq<ShipModule>, buildings: Seq<Building>) -> bool {
    forall|i: int| 0 <= i < modules.len() ==> module_buildable(#[trigger] modules[i].module_type, buildings)
}

/// One slot of a ship design.
#[derive(Clone, Copy, Debug, PartialEq, Eq, Structural)]
pub struct ShipModule {
    pub module_type: ShipModuleType,
    pub level: u8,
}

/// A ship design: a fixed row of module slots.
pub type ShipTemplate = [ShipModule; MODULES_ON_SHIP];

impl ShipModuleType {
    /// Per-ship weapons a module of this kind carries.
    pub open spec fn spec_base_weapons(self) -> Weapons {
        match self {
            ShipModuleType::Lasers => Weapons { kinetic: 0, laser: 3, explosive: 0 },
            ShipModuleType::MachineGun => Weapons { kinetic: 3, laser: 0, explosive: 0 },
            ShipModuleType::Rockets => Weapons { kinetic: 0, laser: 0, explosive: 3 },
            _ => no_weapons(),
        }
    }

    /// Per-ship defenses a module of this kind carries.
    pub open spec fn spec_base_defenses(self) -> Defenses {
        match self {
            ShipModuleType::Empty => no_defenses(),
            ShipModuleType::Lasers => Defenses { armor: 1, shield: 1, hull: 1 },
            ShipModuleType::MachineGun => Defenses { armor: 1, shield: 1, hull: 1 },
            ShipModuleType::Rockets => Defenses { armor: 1, shield: 1, hull: 1 },
            ShipModuleType::HardenedHull => Defenses { armor: 0, shield: 0, hull: 10 },
            ShipModuleType::ShieldBooster => Defenses { armor: 0, shield: 10, hull: 0 },
            ShipModuleType::AdditionalArmor => Defenses { armor: 10, shield: 0, hull: 0 },
            ShipModuleType::HaulingBay => Defenses { armor: 0, shield: 0, hull: 2 },
            ShipModuleType::TargetingSystems => Defenses { armor: 0, shield: 0, hull: 1 },
            ShipModuleType::MiningDrill => Defenses { armor: 1, shield: 1, hull: 2 },
            ShipModuleType::LandingPods => Defenses { armor: 1, shield: 1, hull: 1 },
        }
    }

    /// Level-one cost in metal, crystal, chemical and fuel, in base units.
    pub open spec fn spec_base_cost(self) -> Seq<u64> {
        match self {
            ShipModuleType::Empty => seq![0u64, 0, 0, 0],
            ShipModuleType::Rockets => seq![50_000_000u64, 50_000_000, 250_000_000, 50_000_000],
            ShipModuleType::MachineGun => seq![250_000_000u64, 50_000_000, 50_000_000, 50_000_000],
            ShipModuleType::Lasers => seq![50_000_000u64, 250_000_000, 50_000_000, 50_000_000],
            ShipModuleType::HardenedHull => seq![300_000_000u64, 50_000_000, 50_000_000, 50_000_000],
            ShipModuleType::ShieldBooster => seq![50_000_000u64, 300_000_000, 50_000_000, 50_000_000],
            ShipModuleType::AdditionalArmor => seq![50_000_000u64, 50_000_000, 300_000_000, 50_000_000],
            ShipModuleType::HaulingBay => seq![2_000_000_000u64, 50_000_000, 50_000_000, 50_000_000],
            ShipModuleType::TargetingSystems => seq![1_000_000_000u64, 1_000_000_000, 1_000_000_000, 200_000_000],
            ShipModuleType::MiningDrill => seq![200_000_000u64, 200_000_000, 200_000_000, 500_000_000],
            ShipModuleType::LandingPods => seq![250_000_000u64, 50_000_000, 200_000_000, 500_000_000],
        }
    }

    /// IGT cost, in base units; it does not grow with the level.
    pub open spec fn spec_base_cost_igt(self) -> u64 {
        match self {
            ShipModuleType::Empty => 0,
            ShipModuleType::Rockets => 100_000,
            ShipModuleType::MachineGun => 100_000,
            ShipModuleType::Lasers => 100_000,
            ShipModuleType::HardenedHull => 10_000,
            ShipModuleType::ShieldBooster => 10_000,
            ShipModuleType::AdditionalArmor => 10_000,
            ShipModuleType::HaulingBay => 100_000,
            ShipModuleType::TargetingSystems => 800_000,
            ShipModuleType::MiningDrill => 100_000,
            ShipModuleType::LandingPods => 100_000,
        }
    }

    /// Cost of one module of this kind at `level`.
    pub open spec fn spec_quote(self, level: int) -> Resources {
        let base = self.spec_base_cost();
        let steps = level_steps(level);
        Resources {
            igt: self.spec_base_cost_igt(),
            metal: grown_cost(base[0] as int, MODULE_GROWTH_NUM as int, MODULE_GROWTH_DEN as int, steps) as u64,
            crystal: grown_cost(base[1] as int, MODULE_GROWTH_NUM as int, MODULE_GROWTH_DEN as int, steps) as u64,
            chemical: grown_cost(base[2] as int, MODULE_GROWTH_NUM as int, MODULE_GROWTH_DEN as int, steps) as u64,
            fuel: grown_cost(base[3] as int, MODULE_GROWTH_NUM as int, MODULE_GROWTH_DEN as int, steps) as u64,
        }
    }

    /// Whether a module of this kind can be built on a planet with these
    /// buildings: it needs its building, if it has one, among them.
    pub fn can_be_built(&self, buildings: [Building; BUILDINGS_ON_PLANET]) -> (r: Result<(), FleetErrorCode>)
        ensures
            r is Ok <==> module_buildable(*self, buildings@),
            r is Err ==> r == Err::<(), FleetErrorCode>(FleetErrorCode::CantBuildMissingBuilding),
    {
        let relevant_building: Option<BuildingType> = match self {
            ShipModuleType::Empty => None,
            ShipModuleType::Rockets => Some(BuildingType::ChemicalRefinery),
            ShipModuleType::MachineGun => Some(BuildingType::MetalIndustry),
            ShipModuleType::Lasers => Some(BuildingType::CrystalLabs),
            ShipModuleType::HardenedHull => Some(BuildingType::CrystalLabs),
            ShipModuleType::ShieldBooster => Some(BuildingType::MetalIndustry),
            ShipModuleType::AdditionalArmor => Some(BuildingType::ChemicalRefinery),
            ShipModuleType::HaulingBay => None,
            ShipModuleType::TargetingSystems => Some(BuildingType::AstralNavyHQ),
            ShipModuleType::MiningDrill => None,
            ShipModuleType::LandingPods => Some(BuildingType::AstralNavyHQ),
        };
        if let Some(relevant_building) = relevant_building {
            if find_building(&buildings, relevant_building).is_none() {
                return Err(FleetErrorCode::CantBuildMissingBuilding);
            }
        }
        Ok(())
    }

    /// The weapon module that suits a planet's richest resource:
    /// 0 metal, 1 crystal, anything else chemical.
    pub fn weapon_from_affinity(affinity: u8) -> (r: ShipModuleType)
        ensures
            r == (if affinity == 0 {
                ShipModuleType::MachineGun
            } else if affinity == 1 {
                ShipModuleType::Lasers
            } else {
                ShipModuleType::Rockets
            }),
    {
        match affinity {
            0 => ShipModuleType::MachineGun,
            1 => ShipModuleType::Lasers,
            _ => ShipModuleType::Rockets,
        }
    }

    pub fn base_weapons(&self) -> (r: Weapons)
        ensures
            r == self.spec_base_weapons(),
    {
        match self {
            ShipModuleType::Lasers => Weapons::from_numbers(3, 0, 0),
            ShipModuleType::MachineGun => Weapons::from_numbers(0, 3, 0),
            ShipModuleType::Rockets => Weapons::from_numbers(0, 0, 3),
            _ => Weapons::from_numbers(0, 0, 0),
        }
    }

    pub fn base_defenses(&self) -> (r: Defenses)
        ensures
            r == self.spec_base_defenses(),
    {
        match self {
            ShipModuleType::Empty => Defenses::from_numbers(0, 0, 0),
            ShipModuleType::Lasers => Defenses::from_numbers(1, 1, 1),
            ShipModuleType::MachineGun => Defenses::from_numbers(1, 1, 1),
            ShipModuleType::Rockets => Defenses::from_numbers(1, 1, 1),
            ShipModuleType::HardenedHull => Defenses::from_numbers(0, 0, 10),
            ShipModuleType::ShieldBooster => Defenses::from_numbers(10, 0, 0),
            ShipModuleType::AdditionalArmor => Defenses::from_numbers(0, 10, 0),
            ShipModuleType::HaulingBay => Defenses::from_numbers(0, 0, 2),
            ShipModuleType::TargetingSystems => Defenses::from_numbers(0, 0, 1),
            ShipModuleType::MiningDrill => Defenses::from_numbers(1, 1, 2),
            ShipModuleType::LandingPods => Defenses::from_numbers(1, 1, 1),
        }
    }

    pub fn base_cost(&self) -> (r: [u64; 4])
        ensures
            r@ == self.spec_base_cost(),
    {
        let r = match self {
            ShipModuleType::Empty => [0, 0, 0, 0],
            ShipModuleType::Rockets => [50_000_000, 50_000_000, 250_000_000, 50_000_000],
            ShipModuleType::MachineGun => [250_000_000, 50_000_000, 50_000_000, 50_000_000],
            ShipModuleType::Lasers => [50_000_000, 250_000_000, 50_000_000, 50_000_000],
            ShipModuleType::HardenedHull => [300_000_000, 50_000_000, 50_000_000, 50_000_000],
            ShipModuleType::ShieldBooster => [50_000_000, 300_000_000, 50_000_000, 50_000_000],
            ShipModuleType::AdditionalArmor => [50_000_000, 50_000_000, 300_000_000, 50_000_000],
            ShipModuleType::HaulingBay => [2_000_000_000, 50_000_000, 50_000_000, 50_000_000],
            ShipModuleType::TargetingSystems => [1_000_000_000, 1_000_000_000, 1_000_000_000, 200_000_000],
            ShipModuleType::MiningDrill => [200_000_000, 200_000_000, 200_000_000, 500_000_000],
            ShipModuleType::LandingPods => [250_000_000, 50_000_000, 200_000_000, 500_000_000],
        };
        assert(r@ =~= self.spec_base_cost());
        r
    }

    pub fn base_cost_igt(&self) -> (r: u64)
        ensures
            r == self.spec_base_cost_igt(),
    {
        match self {
            ShipModuleType::Empty => 0,
            ShipModuleType::Rockets => 100_000,
            ShipModuleType::MachineGun => 100_000,
            ShipModuleType::Lasers => 100_000,
            ShipModuleType::HardenedHull => 10_000,
            ShipModuleType::ShieldBooster => 10_000,
            ShipModuleType::AdditionalArmor => 10_000,
            ShipModuleType::HaulingBay => 100_000,
            ShipModuleType::TargetingSystems => 800_000,
            ShipModuleType::MiningDrill => 100_000,
            ShipModuleType::LandingPods => 100_000,
        }
    }

    /// Cost of one module of this kind at `level`: the IGT cost is flat, the
    /// other resources grow by 1.6 per level above one.
    pub fn get_quote(&self, level: u8) -> (r: Resources)
        ensures
            r == self.spec_quote(level as int),
    {
        let base_cost = self.base_cost();
        Resources {
            igt: self.base_cost_igt(),
            metal: calculate_upgrade_cost(base_cost[0], MODULE_GROWTH_NUM, MODULE_GROWTH_DEN, level),
            crystal: calculate_upgrade_cost(base_cost[1], MODULE_GROWTH_NUM, MODULE_GROWTH_DEN, level),
            chemical: calculate_upgrade_cost(base_cost[2], MODULE_GROWTH_NUM, MODULE_GROWTH_DEN, level),
            fuel: calculate_upgrade_cost(base_cost[3], MODULE_GROWTH_NUM, MODULE_GROWTH_DEN, level),
        }
    }
}

/// Cost of `amount` modules like `m`.
pub open spec fn module_cost(m: ShipModule, amount: int) -> Resources {
    scale_resources(m.module_type.spec_quote(m.level as int), amount)
}

/// Cost of `amount` ships of a design: the sum over its modules.
pub open spec fn design_cost(modules: Seq<ShipModule>, amount: int) -> Resources
    decreases modules.len(),
{
    if modules.len() == 0 {
        no_resources()
    } else {
        add_resources(design_cost(modules.drop_last(), amount), module_cost(modules.last(), amount))
    }
}

/// A design as first built on a planet: a mining drill and the weapon that
/// suits the planet's richest resource, both at level one.
pub open spec fn spec_starting_ship(affinity: u8) -> Seq<ShipModule> {
    let weapon = if affinity == 0 {
        ShipModuleType::MachineGun
    } else if affinity == 1 {
        ShipModuleType::Lasers
    } else {
        ShipModuleType::Rockets
    };
    seq![
        ShipModule { module_type: ShipModuleType::MiningDrill, level: 1 },
        ShipModule { module_type: weapon, level: 1 },
        ShipModule { module_type: ShipModuleType::Empty, level: 0 },
        ShipModule { module_type: ShipModuleType::Empty, level: 0 },
        ShipModule { module_type: ShipModuleType::Empty, level: 0 },
        ShipModule { module_type: ShipModuleType::Empty, level: 0 },
    ]
}

pub fn starting_ship(affinity: u8) -> (r: ShipTemplate)
    ensures
        r@ == spec_starting_ship(affinity),
{
    let empty = ShipModule { module_type: ShipModuleType::Empty, level: 0 };
    let mut template = [empty; MODULES_ON_SHIP];
    template[0] = ShipModule { module_type: ShipModuleType::MiningDrill, level: 1 };
    template[1] = ShipModule { module_type: ShipModuleType::weapon_from_affinity(affinity), level: 1 };
    assert(template@ =~= spec_starting_ship(affinity));
    template
}

/// Whether ships of a design can be built on a planet with these buildings.
pub fn ship_can_be_built(template: ShipTemplate, holding_buildings: [Building; BUILDINGS_ON_PLANET]) -> (r: Result<(), FleetErrorCode>)
    ensures
        r is Ok <==> design_buildable(template@, holding_buildings@),
        r is Err ==> r == Err::<(), FleetErrorCode>(FleetErrorCode::CantBuildMissingBuilding),
{
    let mut i: usize = 0;
    while i < MODULES_ON_SHIP
        invariant
            i <= MODULES_ON_SHIP,
            forall|j: int| 0 <= j < i ==> module_buildable(#[trigger] template@[j].module_type, holding_buildings@),
        decreases MODULES_ON_SHIP - i,
    {
        if template[i].module_type.can_be_built(holding_buildings).is_err() {
            return Err(FleetErrorCode::CantBuildMissingBuilding);
        }
        i = i + 1;
    }
    Ok(())
}

/// Cost of building `amount` ships of a design.
pub fn ship_quote(template: &ShipTemplate, amount: u16) -> (r: Resources)
    ensures
        r == design_cost(template@, amount as int),
{
    let mut costs = Resources { igt: 0, metal: 0, crystal: 0, chemical: 0, fuel: 0 };
    let mut i: usize = 0;
    while i < MODULES_ON_SHIP
        invariant
            i <= MODULES_ON_SHIP,
            costs == design_cost(template@.take(i as int), amount as int),
        decreases MODULES_ON_SHIP - i,
    {
        let module = template[i];
        costs = costs.sum(module.module_type.get_quote(module.level).mul(amount as u64));
        assert(template@.take(i + 1).drop_last() =~= template@.take(i as int));
        i = i + 1;
    }
    assert(template@.take(MODULES_ON_SHIP as int) =~= template@);
    costs
}

/// Fuel a ship of a design burns per unit of distance: the sum of the levels
/// of its modules, saturating.
pub open spec fn design_fuel(modules: Seq<ShipModule>) -> int
    decreases modules.len(),
{
    if modules.len() == 0 {
        0
    } else {
        let rest = design_fuel(modules.drop_last());
        if modules.last().module_type == ShipModuleType::Empty {
            rest
        } else {
            sat_add(rest, modules.last().level as int)
        }
    }
}

pub fn ship_move_quote(template: &ShipTemplate) -> (r: u64)
    ensures
        r == design_fuel(template@),
{
    let mut fuel_cost: u64 = 0;
    let mut i: usize = 0;
    while i < MODULES_ON_SHIP
        invariant
            i <= MODULES_ON_SHIP,
            fuel_cost == design_fuel(template@.take(i as int)),
        decreases MODULES_ON_SHIP - i,
    {
        if template[i].module_type != ShipModuleType::Empty {
            fuel_cost = fuel_cost.saturating_add(template[i].level as u64);
        }
        assert(template@.take(i + 1).drop_last() =~= template@.take(i as int));
        i = i + 1;
    }
    assert(template@.take(MODULES_ON_SHIP as int) =~= template@);
    fuel_cost
}

/// Whether a module kind is a weapon.
pub open spec fn is_weapon(t: ShipModuleType) -> bool {
    t == ShipModuleType::Lasers || t == ShipModuleType::Rockets || t == ShipModuleType::MachineGun
}

/// A design that carries a weapon starts a battle in good order; an unarmed
/// one starts out broken.
pub fn default_morale(template: ShipTemplate) -> (r: Morale)
    ensures
        r == (if exists|i: int| 0 <= i < MODULES_ON_SHIP && is_weapon(#[trigger] template@[i].module_type) {
            Morale::Normal
        } else {
            Morale::Broken
        }),
{
    let mut i: usize = 0;
    while i < MODULES_ON_SHIP
        invariant
            i <= MODULES_ON_SHIP,
            forall|j: int| 0 <= j < i ==> !is_weapon(#[trigger] template@[j].module_type),
        decreases MODULES_ON_SHIP - i,
    {
        let t = template[i].module_type;
        if t == ShipModuleType::Lasers || t == ShipModuleType::Rockets || t == ShipModuleType::MachineGun {
            assert(is_weapon(template@[i as int].module_type));
            return Morale::Normal;
        }
        i = i + 1;
    }
    Morale::Broken
}

proof fn lemma_sat_mul_monotone(a: int, n1: int, n2: int)
    requires
        0 <= a,
        0 <= n1 <= n2,
    ensures
        sat_mul(a, n1) <= sat_mul(a, n2),
{
    assert(a * n1 <= a * n2) by (nonlinear_arith)
        requires
            0 <= a,
            0 <= n1 <= n2,
    ;
}

pub(crate) proof fn lemma_design_cost_monotone(modules: Seq<ShipModule>, n1: int, n2: int)
    requires
        0 <= n1 <= n2,
    ensures
        resources_le(design_cost(modules, n1), design_cost(modules, n2)),
    decreases modules.len(),
{
    if modules.len() > 0 {
        lemma_design_cost_monotone(modules.drop_last(), n1, n2);
        let q = modules.last().module_type.spec_quote(modules.last().level as int);
        lemma_sat_mul_monotone(q.igt as int, n1, n2);
        lemma_sat_mul_monotone(q.metal as int, n1, n2);
        lemma_sat_mul_monotone(q.crystal as int, n1, n2);
        lemma_sat_mul_monotone(q.chemical as int, n1, n2);
        lemma_sat_mul_monotone(q.fuel as int, n1, n2);
    }
}

} // verus!
