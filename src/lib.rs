//! Fleet combat resolution for a persistent-world space strategy game.
//!
//! Two fleets of ship squadrons fight in simultaneous rounds: weapon output is
//! split across the opponent's squadrons still in the battle, absorbed by
//! shield, armor and hull pools with carry-over and affinity bonuses, and each
//! squadron's morale and presence follow a small state machine. The battle
//! ends at a fixed round cap or when one side has nothing left to fight with;
//! losses are priced as the drop in the fleets' construction value.
//!
//! Around the engine sit the game rules it draws on: the ship module catalogue
//! and its costs, resource amounts, planet buildings and planet placement.

pub mod battle;
pub mod building;
pub mod design;
pub mod fleet;
pub mod planet;
pub mod resource;
pub mod ship;
pub mod squadron;
pub mod utilities;
