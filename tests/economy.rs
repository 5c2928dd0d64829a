use space_castle::battle::{battle_spoils, fleet_battle, BattleSide, Morale, BattlePresence};
use space_castle::design::{
    default_morale, ship_move_quote, ship_quote, starting_ship, ShipModule, ShipModuleType, ShipTemplate,
    MODULES_ON_SHIP,
};
use space_castle::fleet::{Fleet, SQUADRONS_IN_FLEET};
use space_castle::squadron::Squadron;
use space_castle::resource::Resources;
use space_castle::utilities::{calculate_upgrade_cost, multiply_costs, saturating_mul_u64, sum_costs};

fn res(igt: u64, metal: u64, crystal: u64, chemical: u64, fuel: u64) -> Resources {
    Resources { igt, metal, crystal, chemical, fuel }
}

fn empty_fleet() -> Fleet {
    Fleet { owner: [0u8; 32], is_present: false, squadrons: [None; SQUADRONS_IN_FLEET] }
}

#[test]
fn cost_tuples_add_and_scale_with_saturation() {
    assert_eq!(sum_costs((1, [1, 2, 3, u64::MAX]), (2, [3, 4, 5, 1])), (3, [4, 6, 8, u64::MAX]));
    assert_eq!(multiply_costs((2, [1, 0, u64::MAX, 5]), 3), (6, [3, 0, u64::MAX, 15]));
    assert_eq!(multiply_costs((7, [1, 2, 3, 4]), 0), (0, [0, 0, 0, 0]));
    assert_eq!(saturating_mul_u64(u64::MAX / 2, 3), u64::MAX);
    assert_eq!(saturating_mul_u64(6, 7), 42);
}

#[test]
fn upgrade_cost_grows_per_level() {
    assert_eq!(calculate_upgrade_cost(100, 11, 10, 1), 100);
    assert_eq!(calculate_upgrade_cost(100, 11, 10, 3), 121);
    assert_eq!(calculate_upgrade_cost(100, 11, 10, 0), 100);
    assert_eq!(calculate_upgrade_cost(u64::MAX, 16, 10, 2), u64::MAX);
}

#[test]
fn module_quote_by_level() {
    let lasers = ShipModuleType::Lasers;
    assert_eq!(lasers.get_quote(1), res(100_000, 50_000_000, 250_000_000, 50_000_000, 50_000_000));
    assert_eq!(lasers.get_quote(2), res(100_000, 80_000_000, 400_000_000, 80_000_000, 80_000_000));
    assert_eq!(lasers.get_quote(3), res(100_000, 128_000_000, 640_000_000, 128_000_000, 128_000_000));
    assert_eq!(lasers.get_quote(0), lasers.get_quote(1));
    assert_eq!(ShipModuleType::Empty.get_quote(5), res(0, 0, 0, 0, 0));
    assert_eq!(ShipModuleType::TargetingSystems.base_cost(), [1_000_000_000, 1_000_000_000, 1_000_000_000, 200_000_000]);
    assert_eq!(ShipModuleType::HardenedHull.base_cost_igt(), 10_000);
}

#[test]
fn ship_quote_sums_modules_times_count() {
    let mut template: ShipTemplate = [ShipModule { module_type: ShipModuleType::Empty, level: 0 }; MODULES_ON_SHIP];
    template[0] = ShipModule { module_type: ShipModuleType::Lasers, level: 2 };
    template[3] = ShipModule { module_type: ShipModuleType::MiningDrill, level: 1 };
    assert_eq!(ship_quote(&template, 3), res(600_000, 840_000_000, 1_800_000_000, 840_000_000, 1_740_000_000));
    assert_eq!(ship_quote(&template, 0), res(0, 0, 0, 0, 0));
    assert_eq!(ship_move_quote(&template), 3);
}

#[test]
fn weapon_follows_planet_affinity() {
    assert_eq!(ShipModuleType::weapon_from_affinity(0), ShipModuleType::MachineGun);
    assert_eq!(ShipModuleType::weapon_from_affinity(1), ShipModuleType::Lasers);
    assert_eq!(ShipModuleType::weapon_from_affinity(2), ShipModuleType::Rockets);
    assert_eq!(ShipModuleType::weapon_from_affinity(200), ShipModuleType::Rockets);
}

#[test]
fn starting_fleet_has_three_starting_ships() {
    let template = starting_ship(1);
    assert_eq!(template[0], ShipModule { module_type: ShipModuleType::MiningDrill, level: 1 });
    assert_eq!(template[1], ShipModule { module_type: ShipModuleType::Lasers, level: 1 });
    assert_eq!(template[2].module_type, ShipModuleType::Empty);
    assert_eq!(ship_move_quote(&template), 2);
    assert_eq!(default_morale(template), Morale::Normal);

    let mut f = empty_fleet();
    f.convert_to_starting_fleet(0, [5u8; 32]);
    assert!(f.is_present());
    assert!(f.is_owned_by(&[5u8; 32]));
    let sq = f.squadrons[0].unwrap();
    assert_eq!(sq.amount, 3);
    assert_eq!(sq.template[1].module_type, ShipModuleType::MachineGun);
    assert_eq!(sq.presence, BattlePresence::Active);
    assert!(f.squadrons[1].is_none());
    assert_eq!(f.get_quote(), res(600_000, 1_350_000_000, 750_000_000, 750_000_000, 1_650_000_000));
}

#[test]
fn unarmed_design_starts_broken() {
    let mut template: ShipTemplate = [ShipModule { module_type: ShipModuleType::HardenedHull, level: 1 }; MODULES_ON_SHIP];
    assert_eq!(default_morale(template), Morale::Broken);
    template[5] = ShipModule { module_type: ShipModuleType::Rockets, level: 1 };
    assert_eq!(default_morale(template), Morale::Normal);
}

#[test]
fn ownership_and_presence() {
    let mut f = empty_fleet();
    assert!(!f.is_present());
    f.set_presence([7u8; 32]);
    assert!(f.is_present());
    assert!(f.is_owned_by(&[7u8; 32]));
    let mut other = [7u8; 32];
    other[31] = 8;
    assert!(!f.is_owned_by(&other));

    let mut g = empty_fleet();
    f.convert_to_starting_fleet(2, [9u8; 32]);
    g.replace_with_another_fleet(&f);
    assert!(g.is_owned_by(&[9u8; 32]));
    assert!(g.is_present());
    assert_eq!(g.squadrons[0].unwrap().amount, 3);

    f.reset();
    assert!(!f.is_present());
    assert!(f.is_owned_by(&[0u8; 32]));
    assert!(f.squadrons.iter().all(|s| s.is_none()));
    assert!(f.in_retreat());
}

#[test]
fn resource_arithmetic() {
    let a = res(10, 20, 30, 40, u64::MAX);
    let b = res(1, 25, 3, 4, 5);
    assert_eq!(a.sum(b), res(11, 45, 33, 44, u64::MAX));
    assert_eq!(a.sub(b), res(9, 0, 27, 36, u64::MAX - 5));
    assert_eq!(a.div(3), res(3, 6, 10, 13, u64::MAX / 3));
    assert_eq!(b.mul(2), res(2, 50, 6, 8, 10));
    assert_eq!(a.mul(2).fuel, u64::MAX);
    let mut c = res(1, 1, 1, 1, 1);
    c.add(b);
    assert_eq!(c, res(2, 26, 4, 5, 6));
    let zero = c.reset();
    assert_eq!(zero, res(0, 0, 0, 0, 0));
    assert_eq!(c, res(2, 26, 4, 5, 6));
}

#[test]
fn winner_takes_a_share_of_both_losses() {
    let mut drill = [ShipModule { module_type: ShipModuleType::Empty, level: 0 }; MODULES_ON_SHIP];
    drill[0] = ShipModule { module_type: ShipModuleType::MiningDrill, level: 1 };
    let mut lasers = drill;
    lasers[0] = ShipModule { module_type: ShipModuleType::Lasers, level: 1 };
    let mut attacker = empty_fleet();
    attacker.squadrons[0] = Some(Squadron { template: drill, amount: 1, morale: Morale::Normal, presence: BattlePresence::Active });
    let mut defender = empty_fleet();
    defender.squadrons[0] = Some(Squadron { template: lasers, amount: 10, morale: Morale::Normal, presence: BattlePresence::Active });
    let result = fleet_battle(&mut attacker, &mut defender);
    assert_eq!(result.winner, BattleSide::Defender);
    assert_eq!(battle_spoils(&result), res(20_000, 40_000_000, 40_000_000, 40_000_000, 100_000_000));
}
