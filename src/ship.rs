//! The first-generation ship record: fixed armor and shields with lists of
//! weapon and utility modules.
use vstd::prelude::*;

verus! {

#[derive(Clone, Copy, Debug, PartialEq, Eq, Structural)]
pub enum EngineModule {
    Normal,
    Fast,
}

#[derive(Clone, Copy, Debug, PartialEq, Eq, Structural)]
pub enum WeaponType {
    Kinetic,
    Laser,
    Rocket,
}

#[derive(Clone, Copy, Debug, PartialEq, Eq, Structural)]
pub enum UtilityType {
    ShieldGenerator,
    EngineBooster,
    ExtraArmor,
    CommandCenter,
    SeedingBay,
    ScienceLab,
    MiningDrill,
}

#[derive(Clone, Copy, Debug, PartialEq, Eq, Structural)]
pub struct WeaponModule {
    pub weapon_type: WeaponType,
}

#[derive(Clone, Copy, Debug, PartialEq, Eq, Structural)]
pub struct UtilityModule {
    pub utility_type: UtilityType,
}

/// A ship with up to three weapon and three utility modules.
#[derive(Debug)]
pub struct Ship {
    pub armor: u8,
    pub shields: u8,
    pub engine_module: EngineModule,
    pub weapon_modules: Vec<WeaponModule>,
    pub utility_modules: Vec<UtilityModule>,
}

impl Ship {
    /// Turns the ship into the starting ship: 32 armor, 8 shields, a normal
    /// engine, one kinetic weapon and a mining drill.
    pub fn convert_to_starting_ship(&mut self)
        ensures
            final(self).armor == 32,
            final(self).shields == 8,
            final(self).engine_module == EngineModule::Normal,
            final(self).weapon_modules@ == seq![WeaponModule { weapon_type: WeaponType::Kinetic }],
            final(self).utility_modules@ == seq![UtilityModule { utility_type: UtilityType::MiningDrill }],
    {
        self.armor = 32;
        self.shields = 8;
        self.engine_module = EngineModule::Normal;
        self.weapon_modules = vec![WeaponModule { weapon_type: WeaponType::Kinetic }];
        self.utility_modules = vec![UtilityModule { utility_type: UtilityType::MiningDrill }];
    }
}

} // verus!
