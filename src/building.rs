//! Planet buildings: their kinds, upgrade costs and the slots of a holding.
use vstd::prelude::*;

use crate::resource::Resources;
use crate::utilities::{calculate_upgrade_cost, grown_cost, level_steps, same_text};

verus! {

/// Building slots on a planet holding.
pub const BUILDINGS_ON_PLANET: usize = 6;

/// Growth of a building's upgrade cost per level: a factor of
/// `UPGRADE_GROWTH_NUM / UPGRADE_GROWTH_DEN`.
pub const UPGRADE_GROWTH_NUM: u64 = 11;

pub const UPGRADE_GROWTH_DEN: u64 = 10;

/// The kinds of building; `Empty` marks a free slot.
#[derive(Clone, Copy, Debug, PartialEq, Eq, Structural, PartialOrd, Ord)]
pub enum BuildingType {
    Empty,
    PlanetaryCapital,
    Shipyard,
    MetalIndustry,
    CrystalLabs,
    ChemicalRefinery,
    FuelExtractors,
    TradeBeacon,
    AstralNavyHQ,
    Infrastructure,
}

/// Why a building order was refused.
#[derive(Clone, Copy, Debug, PartialEq, Eq, Structural)]
pub enum BuildingErrorCode {
    /// The building name matches no building.
    BuildingKey,
    /// The holding already has a building of that kind.
    BuildingAlreadyBuilt,
    /// The holding has no free slot left.
    NoBuildingSpotLeft,
    /// The holding has no building of that kind.
    BuildingNotPresent,
}

/// A building and its level.
#[derive(Clone, Copy, Debug, PartialEq, Eq, Structural)]
pub struct Building {
    pub level: u8,
    pub building_type: BuildingType,
}

impl BuildingType {
    /// Level-one upgrade cost in metal, crystal, chemical and fuel, in base
    /// units.
    pub open spec fn spec_base_upgrade_cost(self) -> Seq<u64> {
        match self {
            BuildingType::Shipyard => seq![10_000_000_000u64, 10_000_000_000, 10_000_000_000, 10_000_000_000],
            BuildingType::AstralNavyHQ => seq![5_000_000_000u64, 5_000_000_000, 5_000_000_000, 15_000_000_000],
            BuildingType::TradeBeacon => seq![25_000_000_000u64, 25_000_000_000, 25_000_000_000, 25_000_000_000],
            BuildingType::Infrastructure => seq![2_000_000_000u64, 2_000_000_000, 2_000_000_000, 5_000_000_000],
            BuildingType::PlanetaryCapital => seq![2_000_000_000u64, 2_000_000_000, 2_000_000_000, 10_000_000_000],
            BuildingType::MetalIndustry => seq![1_000_000_000u64, 500_000_000, 500_000_000, 1_000_000_000],
            BuildingType::CrystalLabs => seq![500_000_000u64, 1_000_000_000, 500_000_000, 1_000_000_000],
            BuildingType::ChemicalRefinery => seq![500_000_000u64, 500_000_000, 1_000_000_000, 1_000_000_000],
            BuildingType::FuelExtractors => seq![5_000_000_000u64, 5_000_000_000, 5_000_000_000, 15_000_000_000],
            BuildingType::Empty => seq![0u64, 0, 0, 0],
        }
    }

    /// The building kind a name stands for.
    pub open spec fn spec_named(name: Seq<char>) -> Option<BuildingType> {
        if name == "Infrastructure"@ {
            Some(BuildingType::Infrastructure)
        } else if name == "PlanetaryCapital"@ {
            Some(BuildingType::PlanetaryCapital)
        } else if name == "ChemicalRefinery"@ {
            Some(BuildingType::ChemicalRefinery)
        } else if name == "MetalIndustry"@ {
            Some(BuildingType::MetalIndustry)
        } else if name == "CrystalLabs"@ {
            Some(BuildingType::CrystalLabs)
        } else if name == "FuelExtractors"@ {
            Some(BuildingType::FuelExtractors)
        } else if name == "AstralNavyHQ"@ {
            Some(BuildingType::AstralNavyHQ)
        } else if name == "Shipyard"@ {
            Some(BuildingType::Shipyard)
        } else if name == "TradeBeacon"@ {
            Some(BuildingType::TradeBeacon)
        } else {
            None
        }
    }

    /// The building kind named `input`; the free-slot marker has no name.
    pub fn from_str(input: &str) -> (r: Result<BuildingType, BuildingErrorCode>)
        ensures
            r == (match BuildingType::spec_named(input@) {
                Some(t) => Ok(t),
                None => Err(BuildingErrorCode::BuildingKey),
            }),
    {
        if same_text(input, "Infrastructure") {
            Ok(BuildingType::Infrastructure)
        } else if same_text(input, "PlanetaryCapital") {
            Ok(BuildingType::PlanetaryCapital)
        } else if same_text(input, "ChemicalRefinery") {
            Ok(BuildingType::ChemicalRefinery)
        } else if same_text(input, "MetalIndustry") {
            Ok(BuildingType::MetalIndustry)
        } else if same_text(input, "CrystalLabs") {
            Ok(BuildingType::CrystalLabs)
        } else if same_text(input, "FuelExtractors") {
            Ok(BuildingType::FuelExtractors)
        } else if same_text(input, "AstralNavyHQ") {
            Ok(BuildingType::AstralNavyHQ)
        } else if same_text(input, "Shipyard") {
            Ok(BuildingType::Shipyard)
        } else if same_text(input, "TradeBeacon") {
            Ok(BuildingType::TradeBeacon)
        } else {
            Err(BuildingErrorCode::BuildingKey)
        }
    }
}

/// Upgrade cost of a building of kind `t` at `level`: no IGT, and each other
/// resource grows by 1.1 per level above one.
pub open spec fn upgrade_cost(t: BuildingType, level: int) -> Resources {
    let base = t.spec_base_upgrade_cost();
    let steps = level_steps(level);
    Resources {
        igt: 0,
        metal: grown_cost(base[0] as int, UPGRADE_GROWTH_NUM as int, UPGRADE_GROWTH_DEN as int, steps) as u64,
        crystal: grown_cost(base[1] as int, UPGRADE_GROWTH_NUM as int, UPGRADE_GROWTH_DEN as int, steps) as u64,
        chemical: grown_cost(base[2] as int, UPGRADE_GROWTH_NUM as int, UPGRADE_GROWTH_DEN as int, steps) as u64,
        fuel: grown_cost(base[3] as int, UPGRADE_GROWTH_NUM as int, UPGRADE_GROWTH_DEN as int, steps) as u64,
    }
}

/// The industry a new planet starts with: metal if metal is strictly the
/// richest, else crystal if crystal is richer than chemical, else chemical.
pub open spec fn spec_industry_for(resources: [u16; 4]) -> BuildingType {
    if resources[0] > resources[1] && resources[0] > resources[2] {
        BuildingType::MetalIndustry
    } else if resources[1] > resources[2] {
        BuildingType::CrystalLabs
    } else {
        BuildingType::ChemicalRefinery
    }
}

impl Building {
    /// A free slot.
    pub fn default() -> (r: Self)
        ensures
            r == (Building { level: 0, building_type: BuildingType::Empty }),
    {
        Building { level: 0, building_type: BuildingType::Empty }
    }

    pub fn default_planetary_capital() -> (r: Self)
        ensures
            r == (Building { level: 1, building_type: BuildingType::PlanetaryCapital }),
    {
        Building { level: 1, building_type: BuildingType::PlanetaryCapital }
    }

    pub fn default_shipyard() -> (r: Self)
        ensures
            r == (Building { level: 1, building_type: BuildingType::Shipyard }),
    {
        Building { level: 1, building_type: BuildingType::Shipyard }
    }

    /// A level-one industry for the planet's richest resource, from its
    /// `[metal, crystal, chemical, fuel]` deposits.
    pub fn default_industry(resources: [u16; 4]) -> (r: Self)
        ensures
            r == (Building { level: 1, building_type: spec_industry_for(resources) }),
    {
        let metal = resources[0];
        let crystal = resources[1];
        let chemical = resources[2];
        let building_type = if metal > crystal && metal > chemical {
            BuildingType::MetalIndustry
        } else if crystal > chemical {
            BuildingType::CrystalLabs
        } else {
            BuildingType::ChemicalRefinery
        };
        Building { level: 1, building_type }
    }

    /// Level-one upgrade cost of this building's kind, in metal, crystal,
    /// chemical and fuel.
    pub fn base_upgrade_cost(&self) -> (r: [u64; 4])
        ensures
            r@ == self.building_type.spec_base_upgrade_cost(),
    {
        let r = match self.building_type {
            BuildingType::Shipyard => [10_000_000_000, 10_000_000_000, 10_000_000_000, 10_000_000_000],
            BuildingType::AstralNavyHQ => [5_000_000_000, 5_000_000_000, 5_000_000_000, 15_000_000_000],
            BuildingType::TradeBeacon => [25_000_000_000, 25_000_000_000, 25_000_000_000, 25_000_000_000],
            BuildingType::Infrastructure => [2_000_000_000, 2_000_000_000, 2_000_000_000, 5_000_000_000],
            BuildingType::PlanetaryCapital => [2_000_000_000, 2_000_000_000, 2_000_000_000, 10_000_000_000],
            BuildingType::MetalIndustry => [1_000_000_000, 500_000_000, 500_000_000, 1_000_000_000],
            BuildingType::CrystalLabs => [500_000_000, 1_000_000_000, 500_000_000, 1_000_000_000],
            BuildingType::ChemicalRefinery => [500_000_000, 500_000_000, 1_000_000_000, 1_000_000_000],
            BuildingType::FuelExtractors => [5_000_000_000, 5_000_000_000, 5_000_000_000, 15_000_000_000],
            BuildingType::Empty => [0, 0, 0, 0],
        };
        assert(r@ =~= self.building_type.spec_base_upgrade_cost());
        r
    }

    /// Cost of upgrading this building from its current level.
    pub fn calculate_upgrade_cost(&self) -> (r: Resources)
        ensures
            r == upgrade_cost(self.building_type, self.level as int),
    {
        let base = self.base_upgrade_cost();
        Resources {
            igt: 0,
            metal: calculate_upgrade_cost(base[0], UPGRADE_GROWTH_NUM, UPGRADE_GROWTH_DEN, self.level),
            crystal: calculate_upgrade_cost(base[1], UPGRADE_GROWTH_NUM, UPGRADE_GROWTH_DEN, self.level),
            chemical: calculate_upgrade_cost(base[2], UPGRADE_GROWTH_NUM, UPGRADE_GROWTH_DEN, self.level),
            fuel: calculate_upgrade_cost(base[3], UPGRADE_GROWTH_NUM, UPGRADE_GROWTH_DEN, self.level),
        }
    }
}

/// The buildings a planet is settled with: a capital, a shipyard and the
/// industry for its richest resource, then free slots.
pub fn generate_initial_buildings_for_planet(resources: [u16; 4]) -> (r: [Building; BUILDINGS_ON_PLANET])
    ensures
        r[0] == (Building { level: 1, building_type: BuildingType::PlanetaryCapital }),
        r[1] == (Building { level: 1, building_type: BuildingType::Shipyard }),
        r[2] == (Building { level: 1, building_type: spec_industry_for(resources) }),
        forall|i: int| 3 <= i < BUILDINGS_ON_PLANET ==> #[trigger] r[i] == (Building {
            level: 0,
            building_type: BuildingType::Empty,
        }),
{
    let mut starting_buildings = [Building::default(); BUILDINGS_ON_PLANET];
    starting_buildings[0] = Building::default_planetary_capital();
    starting_buildings[1] = Building::default_shipyard();
    starting_buildings[2] = Building::default_industry(resources);
    starting_buildings
}

/// Whether some slot holds a building of kind `t`.
pub open spec fn has_building(buildings: Seq<Building>, t: BuildingType) -> bool {
    exists|i: int| 0 <= i < buildings.len() && (#[trigger] buildings[i]).building_type == t
}

/// Index of the first slot holding a building of kind `t`, if any.
pub fn find_building(buildings: &[Building; BUILDINGS_ON_PLANET], t: BuildingType) -> (r: Option<usize>)
    ensures
        r matches Some(i) ==> i < BUILDINGS_ON_PLANET && buildings[i as int].building_type == t && forall|j: int|
            0 <= j < i ==> (#[trigger] buildings[j]).building_type != t,
        r is None <==> !has_building(buildings@, t),
{
    let mut i: usize = 0;
    while i < BUILDINGS_ON_PLANET
        invariant
            i <= BUILDINGS_ON_PLANET,
            forall|j: int| 0 <= j < i ==> (#[trigger] buildings[j]).building_type != t,
        decreases BUILDINGS_ON_PLANET - i,
    {
        if buildings[i].building_type == t {
            return Some(i);
        }
        i = i + 1;
    }
    assert(!has_building(buildings@, t)) by {
        assert forall|j: int| 0 <= j < buildings@.len() implies (#[trigger] buildings@[j]).building_type != t by {
            assert(buildings@[j] == buildings[j]);
        }
    }
    None
}

/// Builds a level-one building of kind `t` in the first free slot and returns
/// what it costs. Refused when the holding already has one of that kind, or
/// when no slot is free.
pub fn place_new_building(buildings: &mut [Building; BUILDINGS_ON_PLANET], t: BuildingType) -> (r: Result<Resources, BuildingErrorCode>)
    ensures
        has_building(old(buildings)@, t) ==> r == Err::<Resources, BuildingErrorCode>(
            BuildingErrorCode::BuildingAlreadyBuilt,
        ) && final(buildings)@ == old(buildings)@,
        !has_building(old(buildings)@, t) && !has_building(old(buildings)@, BuildingType::Empty) ==> r == Err::<
            Resources,
            BuildingErrorCode,
        >(BuildingErrorCode::NoBuildingSpotLeft) && final(buildings)@ == old(buildings)@,
        !has_building(old(buildings)@, t) && has_building(old(buildings)@, BuildingType::Empty) ==> exists|i: int|
            0 <= i < BUILDINGS_ON_PLANET && (#[trigger] old(buildings)[i]).building_type == BuildingType::Empty
                && (forall|j: int| 0 <= j < i ==> (#[trigger] old(buildings)[j]).building_type != BuildingType::Empty)
                && final(buildings)@ == old(buildings)@.update(i, Building { level: 1, building_type: t })
                && r == Ok::<Resources, BuildingErrorCode>(upgrade_cost(t, 1)),
{
    if find_building(buildings, t).is_some() {
        return Err(BuildingErrorCode::BuildingAlreadyBuilt);
    }
    match find_building(buildings, BuildingType::Empty) {
        None => Err(BuildingErrorCode::NoBuildingSpotLeft),
        Some(spot) => {
            let new_building = Building { level: 1, building_type: t };
            buildings[spot] = new_building;
            Ok(new_building.calculate_upgrade_cost())
        },
    }
}

/// Upgrades the first building of kind `t` by one level, at most to level
/// 255, and returns what the upgrade costs at its former level; `None`, with
/// nothing changed, when the holding has no such building.
pub fn upgrade_building(buildings: &mut [Building; BUILDINGS_ON_PLANET], t: BuildingType) -> (r: Option<Resources>)
    ensures
        !has_building(old(buildings)@, t) ==> r is None && final(buildings)@ == old(buildings)@,
        has_building(old(buildings)@, t) ==> exists|i: int|
            0 <= i < BUILDINGS_ON_PLANET && (#[trigger] old(buildings)[i]).building_type == t && (forall|j: int|
                0 <= j < i ==> (#[trigger] old(buildings)[j]).building_type != t) && final(buildings)@
                == old(buildings)@.update(
                i,
                Building {
                    level: if old(buildings)[i].level < 255 {
                        (old(buildings)[i].level + 1) as u8
                    } else {
                        255
                    },
                    building_type: t,
                },
            ) && r == Some(upgrade_cost(t, old(buildings)[i].level as int)),
{
    match find_building(buildings, t) {
        None => None,
        Some(i) => {
            let b = buildings[i];
            let costs = b.calculate_upgrade_cost();
            let level = if b.level < 255 { b.level + 1 } else { 255 };
            buildings[i] = Building { level, building_type: t };
            Some(costs)
        },
    }
}

/// Turns the first building of kind `from` into one of kind `to` and returns
/// what the new kind costs at the building's level; the building then drops
/// to level one, or to zero if it was below level two. Refused when the
/// holding has no building of kind `from`.
pub fn change_building(buildings: &mut [Building; BUILDINGS_ON_PLANET], from: BuildingType, to: BuildingType) -> (r: Result<Resources, BuildingErrorCode>)
    ensures
        !has_building(old(buildings)@, from) ==> r == Err::<Resources, BuildingErrorCode>(
            BuildingErrorCode::BuildingNotPresent,
        ) && final(buildings)@ == old(buildings)@,
        has_building(old(buildings)@, from) ==> exists|i: int|
            0 <= i < BUILDINGS_ON_PLANET && (#[trigger] old(buildings)[i]).building_type == from && (forall|j: int|
                0 <= j < i ==> (#[trigger] old(buildings)[j]).building_type != from) && final(buildings)@
                == old(buildings)@.update(
                i,
                Building {
                    level: if old(buildings)[i].level >= 2 {
                        1
                    } else {
                        0
                    },
                    building_type: to,
                },
            ) && r == Ok::<Resources, BuildingErrorCode>(upgrade_cost(to, old(buildings)[i].level as int)),
{
    match find_building(buildings, from) {
        None => Err(BuildingErrorCode::BuildingNotPresent),
        Some(i) => {
            let level = buildings[i].level;
            let changed = Building { level, building_type: to };
            let costs = changed.calculate_upgrade_cost();
            let new_level: u8 = if level / 2 < 1 { level / 2 } else { 1 };
            buildings[i] = Building { level: new_level, building_type: to };
            Ok(costs)
        },
    }
}

} // verus!
