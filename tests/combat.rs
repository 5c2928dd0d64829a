use space_castle::battle::{
    fleet_battle, BattlePresence, BattleSide, Defenses, FleetStats, Morale, Weapons, MAX_ROUNDS,
};
use space_castle::design::{ShipModule, ShipModuleType, ShipTemplate, MODULES_ON_SHIP};
use space_castle::fleet::{Fleet, SQUADRONS_IN_FLEET};
use space_castle::squadron::{absorb, Squadron, SquadronBlueprint};
use space_castle::resource::Resources;

fn design(types: &[ShipModuleType]) -> ShipTemplate {
    let mut template = [ShipModule { module_type: ShipModuleType::Empty, level: 0 }; MODULES_ON_SHIP];
    for (i, t) in types.iter().enumerate() {
        template[i] = ShipModule { module_type: *t, level: 1 };
    }
    template
}

fn squadron(types: &[ShipModuleType], amount: u16) -> Squadron {
    Squadron {
        template: design(types),
        amount,
        morale: Morale::Normal,
        presence: BattlePresence::Active,
    }
}

fn fleet(slots: Vec<Option<Squadron>>) -> Fleet {
    let mut squadrons = [None; SQUADRONS_IN_FLEET];
    for (i, s) in slots.into_iter().enumerate() {
        squadrons[i] = s;
    }
    Fleet { owner: [1u8; 32], is_present: true, squadrons }
}

fn layered() -> Vec<ShipModuleType> {
    vec![
        ShipModuleType::ShieldBooster,
        ShipModuleType::AdditionalArmor,
        ShipModuleType::HardenedHull,
    ]
}

fn no_resources() -> Resources {
    Resources { igt: 0, metal: 0, crystal: 0, chemical: 0, fuel: 0 }
}

#[test]
fn design_stats_sum_modules_and_ignore_level() {
    let mut template = design(&[ShipModuleType::Lasers, ShipModuleType::MiningDrill, ShipModuleType::Rockets]);
    let stats = FleetStats::from_modules(&template);
    assert_eq!(stats.weapons, Weapons { kinetic: 0, laser: 3, explosive: 3 });
    assert_eq!(stats.defenses, Defenses { armor: 3, shield: 3, hull: 4 });
    template[0].level = 9;
    template[1].level = 200;
    let again = FleetStats::from_modules(&template);
    assert_eq!(again, stats);
}

#[test]
fn empty_design_has_no_stats() {
    let stats = FleetStats::from_modules(&design(&[]));
    assert_eq!(stats.weapons, Weapons { kinetic: 0, laser: 0, explosive: 0 });
    assert_eq!(stats.defenses, Defenses { armor: 0, shield: 0, hull: 0 });
}

#[test]
fn scenario_a_full_laser_volley_destroys_the_squadron() {
    // 10 ships of 10/10/10: a pool of 300. 300 laser deals 375 to the shield,
    // 220 carries into the armor, 120 into the hull: the hull is gone.
    let mut sq = squadron(&layered(), 10);
    let (lost, morale) = sq.take_damage(&Weapons::from_numbers(300, 0, 0));
    assert_eq!(lost, 10);
    assert_eq!(morale, Morale::Broken);
    assert_eq!(sq.amount, 0);
    assert_eq!(sq.presence, BattlePresence::Gone);
}

#[test]
fn partial_laser_volley_is_absorbed_by_the_shield() {
    let mut sq = squadron(&layered(), 10);
    let (lost, morale) = sq.take_damage(&Weapons::from_numbers(40, 0, 0));
    // 50 off the shield: 250 of 300 left, 10 * 250 / 300 = 8 ships.
    assert_eq!(lost, 2);
    assert_eq!(morale, Morale::Normal);
    assert_eq!(sq.amount, 8);
    assert_eq!(sq.presence, BattlePresence::Active);
}

#[test]
fn overflow_bonus_does_not_carry_to_the_next_layer() {
    // 100 laser: 125 against a shield of 100, 25 spills, 20 after the bonus is
    // taken out; the armor keeps 80. 180 of 300 left is exactly 60%.
    let pool = Defenses::from_numbers(100, 100, 100);
    let after = absorb(pool, &Weapons::from_numbers(100, 0, 0));
    assert_eq!(after, Defenses::from_numbers(0, 80, 100));
    let mut sq = squadron(&layered(), 10);
    let (lost, morale) = sq.take_damage(&Weapons::from_numbers(100, 0, 0));
    assert_eq!(lost, 4);
    assert_eq!(morale, Morale::Normal);
}

#[test]
fn non_matching_overflow_gets_the_bonus_on_its_own_layer() {
    // 150 kinetic: 100 off the shield, 50 spills into the armor as 62.
    let pool = Defenses::from_numbers(100, 100, 100);
    let after = absorb(pool, &Weapons::from_numbers(0, 150, 0));
    assert_eq!(after, Defenses::from_numbers(0, 38, 100));
    let mut sq = squadron(&layered(), 10);
    let (lost, morale) = sq.take_damage(&Weapons::from_numbers(0, 150, 0));
    assert_eq!(lost, 6);
    assert_eq!(morale, Morale::Broken);
    assert_eq!(sq.amount, 4);
    assert_eq!(sq.presence, BattlePresence::Active);
}

#[test]
fn affinity_bonus_against_a_single_layer() {
    let shield_only = Defenses::from_numbers(100, 0, 0);
    let by_laser = absorb(shield_only, &Weapons::from_numbers(40, 0, 0));
    let by_kinetic = absorb(shield_only, &Weapons::from_numbers(0, 40, 0));
    assert_eq!(100 - by_laser.shield, 50);
    assert_eq!(100 - by_kinetic.shield, 40);
    let hull_only = Defenses::from_numbers(0, 0, 100);
    let by_explosive = absorb(hull_only, &Weapons::from_numbers(0, 0, 41));
    let by_laser = absorb(hull_only, &Weapons::from_numbers(41, 0, 0));
    assert_eq!(100 - by_explosive.hull, 51);
    assert_eq!(100 - by_laser.hull, 41);
}

#[test]
fn affinity_bonus_is_capped_by_the_layer() {
    let armor_only = Defenses::from_numbers(0, 30, 0);
    let after = absorb(armor_only, &Weapons::from_numbers(0, 40, 0));
    assert_eq!(after.armor, 0);
}

#[test]
fn morale_breaks_below_sixty_percent() {
    let mut broken = squadron(&[ShipModuleType::HardenedHull], 10);
    let (lost, morale) = broken.take_damage(&Weapons::from_numbers(0, 0, 40));
    assert_eq!((lost, morale), (5, Morale::Broken));
    let mut steady = squadron(&[ShipModuleType::HardenedHull], 10);
    let (lost, morale) = steady.take_damage(&Weapons::from_numbers(0, 40, 0));
    assert_eq!((lost, morale), (4, Morale::Normal));
}

#[test]
fn zero_pool_squadron_is_destroyed_by_any_damage() {
    let mut sq = squadron(&[], 5);
    let (lost, morale) = sq.take_damage(&Weapons::from_numbers(0, 1, 0));
    assert_eq!(lost, 5);
    assert_eq!(morale, Morale::Broken);
    assert_eq!(sq.amount, 0);
    assert_eq!(sq.presence, BattlePresence::Gone);
}

#[test]
fn zero_pool_squadron_is_gone_after_its_first_round() {
    let mut f = fleet(vec![Some(squadron(&[], 5)), Some(squadron(&[ShipModuleType::HardenedHull], 2))]);
    let record = f.take_losses(&Weapons::from_numbers(0, 2, 0));
    assert_eq!(record.losses[0], 5);
    assert_eq!(record.morale[0], Morale::Broken);
    assert_eq!(record.presence[0], BattlePresence::Gone);
    // One point off a hull of 20 leaves 19 / 20 of two ships: one.
    assert_eq!(record.losses[1], 1);
    assert_eq!(record.morale[1], Morale::Normal);
    assert_eq!(record.presence[1], BattlePresence::Active);
    assert_eq!(f.squadrons[0].unwrap().amount, 0);
    assert_eq!(f.squadrons[1].unwrap().amount, 1);
}

#[test]
fn fire_is_split_evenly_and_the_remainder_dropped() {
    let w = Weapons::from_numbers(10, 7, 0);
    assert_eq!(w.divide(3), Weapons { kinetic: 2, laser: 3, explosive: 0 });
    assert_eq!(w.divide(0), Weapons { kinetic: 0, laser: 0, explosive: 0 });
    assert_eq!(w.multiply(4), Weapons { kinetic: 28, laser: 40, explosive: 0 });
    let d = Defenses::from_numbers(1, 2, 3);
    assert_eq!(d.multiply(5), Defenses { armor: 10, shield: 5, hull: 15 });
    let big = Weapons::from_numbers(u64::MAX, 1, 0);
    assert_eq!(big.multiply(2).laser, u64::MAX);
}

#[test]
fn empty_slots_read_as_broken_and_gone() {
    let mut f = fleet(vec![None, Some(squadron(&[ShipModuleType::HardenedHull], 3))]);
    let record = f.take_losses(&Weapons::from_numbers(0, 0, 0));
    assert_eq!(record.losses[0], 0);
    assert_eq!(record.morale[0], Morale::Broken);
    assert_eq!(record.presence[0], BattlePresence::Gone);
    assert_eq!(record.presence[1], BattlePresence::Active);
    assert!(f.squadrons[0].is_none());
}

#[test]
fn broken_squadron_leaves_on_its_next_round() {
    let mut sq = squadron(&[ShipModuleType::HardenedHull], 10);
    sq.morale = Morale::Broken;
    sq.presence = BattlePresence::Retreating;
    let mut f = fleet(vec![Some(sq)]);
    let record = f.take_losses(&Weapons::from_numbers(0, 0, 0));
    assert_eq!(record.losses[0], 0);
    assert_eq!(record.presence[0], BattlePresence::Gone);
    assert_eq!(f.squadrons[0].unwrap().amount, 10);
    assert!(f.in_retreat());
}

#[test]
fn only_active_squadrons_count_towards_strength() {
    let mut fleeing = squadron(&[ShipModuleType::Lasers], 10);
    fleeing.presence = BattlePresence::Retreating;
    let mut gone = squadron(&[ShipModuleType::MachineGun], 4);
    gone.presence = BattlePresence::Gone;
    let f = fleet(vec![Some(fleeing), Some(squadron(&[ShipModuleType::Rockets], 2)), Some(gone)]);
    let stats = f.get_battle_strength();
    assert_eq!(stats.weapons, Weapons { kinetic: 0, laser: 0, explosive: 6 });
    assert_eq!(stats.defenses, Defenses { armor: 2, shield: 2, hull: 2 });
}

#[test]
fn scenario_b_destroyed_attacker_loses_in_one_round() {
    let mut attacker = fleet(vec![Some(squadron(&[ShipModuleType::MiningDrill], 1))]);
    let mut defender = fleet(vec![Some(squadron(&[ShipModuleType::Lasers], 10))]);
    let result = fleet_battle(&mut attacker, &mut defender);
    assert_eq!(result.winner, BattleSide::Defender);
    assert_eq!(result.rounds.len(), 1);
    let (att_round, def_round) = &result.rounds[0];
    assert_eq!(att_round.losses[0], 1);
    assert_eq!(att_round.morale[0], Morale::Broken);
    assert_eq!(att_round.presence[0], BattlePresence::Gone);
    assert_eq!(def_round.losses[0], 0);
    assert_eq!(def_round.morale[0], Morale::Normal);
    assert_eq!(def_round.presence[0], BattlePresence::Active);
    assert!(attacker.in_retreat());
    assert_eq!(
        result.att_losses,
        Resources { igt: 100_000, metal: 200_000_000, crystal: 200_000_000, chemical: 200_000_000, fuel: 500_000_000 }
    );
    assert_eq!(result.def_losses, no_resources());
}

#[test]
fn scenario_c_mirrored_unarmed_fleets_go_to_the_attacker() {
    let mut attacker = fleet(vec![Some(squadron(&[ShipModuleType::HardenedHull], 5))]);
    let mut defender = fleet(vec![Some(squadron(&[ShipModuleType::HardenedHull], 5))]);
    let result = fleet_battle(&mut attacker, &mut defender);
    assert_eq!(result.winner, BattleSide::Attacker);
    assert_eq!(result.rounds.len(), MAX_ROUNDS);
    assert_eq!(result.att_losses, no_resources());
    assert_eq!(result.def_losses, no_resources());
}

#[test]
fn scenario_c_mirrored_armed_fleets_go_to_the_defender() {
    let mut attacker = fleet(vec![Some(squadron(&[ShipModuleType::Rockets], 1))]);
    let mut defender = fleet(vec![Some(squadron(&[ShipModuleType::Rockets], 1))]);
    let result = fleet_battle(&mut attacker, &mut defender);
    assert_eq!(result.rounds.len(), 1);
    assert!(attacker.in_retreat());
    assert!(defender.in_retreat());
    assert_eq!(result.winner, BattleSide::Defender);
}

#[test]
fn round_cap_bounds_the_log() {
    let mut attacker = fleet(vec![Some(squadron(&[ShipModuleType::HaulingBay], 3)); 9]);
    let mut defender = fleet(vec![Some(squadron(&[ShipModuleType::TargetingSystems], 1))]);
    let result = fleet_battle(&mut attacker, &mut defender);
    assert!(result.rounds.len() <= MAX_ROUNDS);
    assert_eq!(result.rounds.len(), MAX_ROUNDS);
}

#[test]
fn casualties_only_grow_and_gone_squadrons_stay_gone() {
    let mut departed = squadron(&[ShipModuleType::HardenedHull], 4);
    departed.morale = Morale::Broken;
    departed.presence = BattlePresence::Gone;
    let mut attacker = fleet(vec![Some(squadron(&[ShipModuleType::Lasers], 20))]);
    let mut defender = fleet(vec![
        Some(squadron(&[ShipModuleType::HardenedHull, ShipModuleType::HardenedHull], 10)),
        Some(departed),
    ]);
    let before = defender.get_quote();
    let result = fleet_battle(&mut attacker, &mut defender);
    assert_eq!(result.winner, BattleSide::Attacker);
    assert_eq!(result.rounds.len(), 3);
    let expected_presence = [BattlePresence::Active, BattlePresence::Retreating, BattlePresence::Gone];
    let expected_morale = [Morale::Normal, Morale::Broken, Morale::Broken];
    let mut ships = 10u16;
    for (i, (att_round, def_round)) in result.rounds.iter().enumerate() {
        assert_eq!(att_round.losses[0], 0);
        assert_eq!(att_round.presence[0], BattlePresence::Active);
        assert_eq!(def_round.losses[0], 3);
        assert_eq!(def_round.presence[0], expected_presence[i]);
        assert_eq!(def_round.morale[0], expected_morale[i]);
        assert_eq!(def_round.losses[1], 0);
        assert_eq!(def_round.presence[1], BattlePresence::Gone);
        ships -= def_round.losses[0];
    }
    assert_eq!(defender.squadrons[0].unwrap().amount, ships);
    assert_eq!(defender.squadrons[0].unwrap().amount, 1);
    assert_eq!(defender.squadrons[1].unwrap().amount, 4);
    assert_eq!(attacker.squadrons[0].unwrap().amount, 20);
    assert_eq!(
        result.def_losses,
        Resources { igt: 180_000, metal: 5_400_000_000, crystal: 900_000_000, chemical: 900_000_000, fuel: 900_000_000 }
    );
    let after = defender.get_quote();
    assert_eq!(result.def_losses.sum(after), before);
    assert_eq!(result.def_losses.metal + after.metal, before.metal);
}

#[test]
fn losses_plus_value_left_equal_value_before() {
    let mut attacker = fleet(vec![
        Some(squadron(&[ShipModuleType::Lasers, ShipModuleType::ShieldBooster], 7)),
        Some(squadron(&[ShipModuleType::Rockets, ShipModuleType::HardenedHull], 5)),
    ]);
    let mut defender = fleet(vec![
        Some(squadron(&[ShipModuleType::MachineGun, ShipModuleType::AdditionalArmor], 6)),
        None,
        Some(squadron(&[ShipModuleType::Lasers, ShipModuleType::HardenedHull], 4)),
    ]);
    let att_before = attacker.get_quote();
    let def_before = defender.get_quote();
    let result = fleet_battle(&mut attacker, &mut defender);
    let att_after = attacker.get_quote();
    let def_after = defender.get_quote();
    assert_eq!(result.att_losses.sum(att_after), att_before);
    assert_eq!(result.def_losses.sum(def_after), def_before);
    for i in 0..SQUADRONS_IN_FLEET {
        if let Some(sq) = attacker.squadrons[i] {
            if sq.amount == 0 {
                assert_eq!(sq.presence, BattlePresence::Gone);
            }
        }
    }
}

#[test]
fn same_fleets_give_the_same_battle() {
    let make = || {
        (
            fleet(vec![Some(squadron(&[ShipModuleType::Lasers, ShipModuleType::HardenedHull], 12))]),
            fleet(vec![
                Some(squadron(&[ShipModuleType::Rockets], 5)),
                Some(squadron(&[ShipModuleType::MachineGun, ShipModuleType::ShieldBooster], 3)),
            ]),
        )
    };
    let (mut a1, mut d1) = make();
    let (mut a2, mut d2) = make();
    let r1 = fleet_battle(&mut a1, &mut d1);
    let r2 = fleet_battle(&mut a2, &mut d2);
    assert_eq!(r1.winner, r2.winner);
    assert_eq!(r1.att_losses, r2.att_losses);
    assert_eq!(r1.def_losses, r2.def_losses);
    assert_eq!(r1.rounds.len(), r2.rounds.len());
    for (x, y) in r1.rounds.iter().zip(r2.rounds.iter()) {
        assert_eq!(x.0.losses, y.0.losses);
        assert_eq!(x.0.morale, y.0.morale);
        assert_eq!(x.0.presence, y.0.presence);
        assert_eq!(x.1.losses, y.1.losses);
        assert_eq!(x.1.morale, y.1.morale);
        assert_eq!(x.1.presence, y.1.presence);
    }
}

#[test]
fn blueprints_become_fresh_squadrons() {
    let mut f = fleet(vec![]);
    let mut blueprints = [None; SQUADRONS_IN_FLEET];
    blueprints[2] = Some(SquadronBlueprint { template: design(&[ShipModuleType::Lasers]), amount: 4 });
    blueprints[5] = Some(SquadronBlueprint { template: design(&[ShipModuleType::Rockets]), amount: 0 });
    f.build_from_template(blueprints);
    let sq = f.squadrons[2].unwrap();
    assert_eq!(sq.amount, 4);
    assert_eq!(sq.morale, Morale::Normal);
    assert_eq!(sq.presence, BattlePresence::Active);
    assert_eq!(f.squadrons[5].unwrap().presence, BattlePresence::Gone);
    assert!(f.squadrons[0].is_none());
    let fresh = Squadron::from_blueprint(SquadronBlueprint { template: design(&[]), amount: 2 });
    assert_eq!(fresh.presence, BattlePresence::Active);
}

#[test]
fn largest_squadron_and_largest_volley() {
    let hull = [ShipModuleType::HardenedHull; 6];
    let mut sq = squadron(&hull, u16::MAX);
    let (lost, morale) = sq.take_damage(&Weapons::from_numbers(0, u64::MAX, 0));
    assert_eq!(lost, u16::MAX);
    assert_eq!(morale, Morale::Broken);
    assert_eq!(sq.presence, BattlePresence::Gone);

    let mut sq = squadron(&hull, u16::MAX);
    let (lost, morale) = sq.take_damage(&Weapons::from_numbers(0, 0, 0));
    assert_eq!((lost, morale), (0, Morale::Normal));
    assert_eq!(sq.amount, u16::MAX);

    let stats = fleet(vec![Some(squadron(&[ShipModuleType::Lasers; 6], u16::MAX)); 9]).get_battle_strength();
    assert_eq!(stats.weapons.laser, 9 * 18 * u16::MAX as u64);
    assert_eq!(stats.defenses.hull, 9 * 6 * u16::MAX as u64);
}

#[test]
fn a_volley_goes_laser_then_kinetic_then_explosive() {
    // Laser deals 12 to a shield of 10; 2 spill, 1 once the bonus comes off,
    // leaving 9 armor. Kinetic deals 5 to the armor (4 left); explosive deals
    // 8 to it, 4 spill into the hull and count 5 there.
    let pool = Defenses::from_numbers(10, 10, 10);
    let after = absorb(pool, &Weapons::from_numbers(10, 4, 8));
    assert_eq!(after, Defenses::from_numbers(0, 0, 5));
}
