//! Combat stat vectors, per-round records and the battle resolver.
use vstd::prelude::*;

use crate::fleet::{
    fleet_after_round, fleet_evolves, fleet_in_retreat, fleet_value, lemma_evolves_transitive,
    lemma_round_only_takes_ships, lemma_value_never_grows, round_records, slots_weapons, Fleet,
    FleetModel, SQUADRONS_IN_FLEET,
};
use crate::design::{ShipModule, MODULES_ON_SHIP};
use crate::resource::{add_resources, divide_resources, sub_resources, Resources};
use crate::utilities::{sat_add, sat_mul, saturating_mul_u64};

verus! {

/// Hard cap on the number of rounds an engagement can last.
pub const MAX_ROUNDS: usize = 16;

/// The side an engagement was won by.
#[derive(Clone, Copy, Debug, PartialEq, Eq, Structural)]
pub enum BattleSide {
    Attacker,
    Defender,
}

/// Where a squadron stands in the battle's lifecycle.
#[derive(Clone, Copy, Debug, PartialEq, Eq, Structural)]
pub enum BattlePresence {
    Active,
    Retreating,
    Gone,
}

/// A squadron's will to fight; `Broken` makes it leave the battle.
#[derive(Clone, Copy, Debug, PartialEq, Eq, Structural)]
pub enum Morale {
    Normal,
    Broken,
}

/// Offensive output by damage type.
#[derive(Clone, Copy, Debug, PartialEq, Eq, Structural)]
pub struct Weapons {
    pub kinetic: u64,
    pub laser: u64,
    pub explosive: u64,
}

/// Defensive pools by layer.
#[derive(Clone, Copy, Debug, PartialEq, Eq, Structural)]
pub struct Defenses {
    pub armor: u64,
    pub shield: u64,
    pub hull: u64,
}

/// Combined offensive and defensive strength.
#[derive(Clone, Copy, Debug, PartialEq, Eq, Structural)]
pub struct FleetStats {
    pub weapons: Weapons,
    pub defenses: Defenses,
}

/// What one round did to one squadron slot.
#[derive(Clone, Copy, Debug, PartialEq, Eq, Structural)]
pub struct SquadronRecord {
    pub losses: u16,
    pub morale: Morale,
    pub presence: BattlePresence,
}

/// What one round did to each squadron slot of one fleet. An empty slot reads
/// as broken and gone, with no losses.
#[derive(Clone, Copy, Debug)]
pub struct FleetBattleRound {
    pub losses: [u16; SQUADRONS_IN_FLEET],
    pub morale: [Morale; SQUADRONS_IN_FLEET],
    pub presence: [BattlePresence; SQUADRONS_IN_FLEET],
}

impl View for FleetBattleRound {
    type V = Seq<SquadronRecord>;

    open spec fn view(&self) -> Seq<SquadronRecord> {
        Seq::new(
            SQUADRONS_IN_FLEET as nat,
            |i: int| SquadronRecord { losses: self.losses[i], morale: self.morale[i], presence: self.presence[i] },
        )
    }
}

pub open spec fn no_weapons() -> Weapons {
    Weapons { kinetic: 0, laser: 0, explosive: 0 }
}

pub open spec fn no_defenses() -> Defenses {
    Defenses { armor: 0, shield: 0, hull: 0 }
}

/// Component-wise saturating sum of two weapon vectors.
pub open spec fn add_weapons(a: Weapons, b: Weapons) -> Weapons {
    Weapons {
        kinetic: sat_add(a.kinetic as int, b.kinetic as int) as u64,
        laser: sat_add(a.laser as int, b.laser as int) as u64,
        explosive: sat_add(a.explosive as int, b.explosive as int) as u64,
    }
}

/// Component-wise saturating sum of two defense vectors.
pub open spec fn add_defenses(a: Defenses, b: Defenses) -> Defenses {
    Defenses {
        armor: sat_add(a.armor as int, b.armor as int) as u64,
        shield: sat_add(a.shield as int, b.shield as int) as u64,
        hull: sat_add(a.hull as int, b.hull as int) as u64,
    }
}

/// Every component of `w` multiplied by `n`, saturating.
pub open spec fn scale_weapons(w: Weapons, n: int) -> Weapons {
    Weapons {
        kinetic: sat_mul(w.kinetic as int, n) as u64,
        laser: sat_mul(w.laser as int, n) as u64,
        explosive: sat_mul(w.explosive as int, n) as u64,
    }
}

/// Every layer of `d` multiplied by `n`, saturating.
pub open spec fn scale_defenses(d: Defenses, n: int) -> Defenses {
    Defenses {
        armor: sat_mul(d.armor as int, n) as u64,
        shield: sat_mul(d.shield as int, n) as u64,
        hull: sat_mul(d.hull as int, n) as u64,
    }
}

/// Every component of `w` divided by `parts`, rounded down; nothing at all
/// when there are no parts to divide into.
pub open spec fn split_weapons(w: Weapons, parts: int) -> Weapons {
    if parts <= 0 {
        no_weapons()
    } else {
        Weapons {
            kinetic: (w.kinetic as int / parts) as u64,
            laser: (w.laser as int / parts) as u64,
            explosive: (w.explosive as int / parts) as u64,
        }
    }
}

impl Weapons {
    /// An even share of this output for each of `parts` targets; the remainder
    /// of the integer division is dropped. Zero parts receive nothing.
    pub fn divide(&self, parts: u8) -> (r: Weapons)
        ensures
            r == split_weapons(*self, parts as int),
    {
        if parts == 0 {
            return Weapons { kinetic: 0, laser: 0, explosive: 0 };
        }
        Weapons {
            kinetic: self.kinetic / parts as u64,
            laser: self.laser / parts as u64,
            explosive: self.explosive / parts as u64,
        }
    }

    /// This output scaled by a ship count, saturating.
    pub fn multiply(&self, times: u16) -> (r: Weapons)
        ensures
            r == scale_weapons(*self, times as int),
    {
        Weapons {
            kinetic: saturating_mul_u64(self.kinetic, times as u64),
            laser: saturating_mul_u64(self.laser, times as u64),
            explosive: saturating_mul_u64(self.explosive, times as u64),
        }
    }

    pub fn from_numbers(laser: u64, kinetic: u64, explosive: u64) -> (r: Self)
        ensures
            r == (Weapons { kinetic, laser, explosive }),
    {
        Weapons { kinetic, laser, explosive }
    }
}

impl Defenses {
    /// These pools scaled by a ship count, saturating.
    pub fn multiply(&self, times: u16) -> (r: Defenses)
        ensures
            r == scale_defenses(*self, times as int),
    {
        Defenses {
            armor: saturating_mul_u64(self.armor, times as u64),
            shield: saturating_mul_u64(self.shield, times as u64),
            hull: saturating_mul_u64(self.hull, times as u64),
        }
    }

    pub fn from_numbers(shield: u64, armor: u64, hull: u64) -> (r: Self)
        ensures
            r == (Defenses { armor, shield, hull }),
    {
        Defenses { armor, shield, hull }
    }
}

/// Per-ship weapons of a design: the sum over its modules.
pub open spec fn design_weapons(modules: Seq<ShipModule>) -> Weapons
    decreases modules.len(),
{
    if modules.len() == 0 {
        no_weapons()
    } else {
        add_weapons(design_weapons(modules.drop_last()), modules.last().module_type.spec_base_weapons())
    }
}

/// Per-ship defenses of a design: the sum over its modules.
pub open spec fn design_defenses(modules: Seq<ShipModule>) -> Defenses
    decreases modules.len(),
{
    if modules.len() == 0 {
        no_defenses()
    } else {
        add_defenses(
            design_defenses(modules.drop_last()),
            modules.last().module_type.spec_base_defenses(),
        )
    }
}

impl FleetStats {
    /// Per-ship weapons and defenses of a design. The level of a module plays
    /// no part; an empty slot adds nothing.
    pub fn from_modules(modules: &[ShipModule; MODULES_ON_SHIP]) -> (r: Self)
        ensures
            r.weapons == design_weapons(modules@),
            r.defenses == design_defenses(modules@),
    {
        let mut weapons = Weapons { kinetic: 0, laser: 0, explosive: 0 };
        let mut defenses = Defenses { armor: 0, shield: 0, hull: 0 };
        let mut i: usize = 0;
        while i < MODULES_ON_SHIP
            invariant
                i <= MODULES_ON_SHIP,
                weapons == design_weapons(modules@.take(i as int)),
                defenses == design_defenses(modules@.take(i as int)),
            decreases MODULES_ON_SHIP - i,
        {
            let module_type = modules[i].module_type;
            let w = module_type.base_weapons();
            let d = module_type.base_defenses();
            weapons = Weapons {
                kinetic: weapons.kinetic.saturating_add(w.kinetic),
                laser: weapons.laser.saturating_add(w.laser),
                explosive: weapons.explosive.saturating_add(w.explosive),
            };
            defenses = Defenses {
                armor: defenses.armor.saturating_add(d.armor),
                shield: defenses.shield.saturating_add(d.shield),
                hull: defenses.hull.saturating_add(d.hull),
            };
            assert(modules@.take(i + 1).drop_last() =~= modules@.take(i as int));
            i = i + 1;
        }
        assert(modules@.take(MODULES_ON_SHIP as int) =~= modules@);
        FleetStats { weapons, defenses }
    }
}

/// The two sides' records of one round: attacker first.
pub type RoundPair = (FleetBattleRound, FleetBattleRound);

/// The outcome of an engagement.
#[derive(Debug)]
pub struct BattleResult {
    pub winner: BattleSide,
    /// One entry per round fought, in order; at most `MAX_ROUNDS`.
    pub rounds: Vec<RoundPair>,
    pub att_losses: Resources,
    pub def_losses: Resources,
}

/// The records of one round, as values.
pub type RoundLog = (Seq<SquadronRecord>, Seq<SquadronRecord>);

/// A battle result as a mathematical value.
pub struct BattleReport {
    pub winner: BattleSide,
    pub rounds: Seq<RoundLog>,
    pub att_losses: Resources,
    pub def_losses: Resources,
}

pub open spec fn round_log(p: RoundPair) -> RoundLog {
    (p.0@, p.1@)
}

impl View for BattleResult {
    type V = BattleReport;

    open spec fn view(&self) -> BattleReport {
        BattleReport {
            winner: self.winner,
            rounds: self.rounds@.map_values(|p: RoundPair| round_log(p)),
            att_losses: self.att_losses,
            def_losses: self.def_losses,
        }
    }
}

/// Rounds fought from round `played` on: both sides fire at once with the
/// weapons of their active squadrons as they stood before the round, until
/// the round cap or until either fleet has nothing left to fight with.
/// Yields both fleets at the end and the records of the rounds fought.
pub open spec fn play_rounds(att: FleetModel, def: FleetModel, played: nat) -> (FleetModel, FleetModel, Seq<RoundLog>)
    decreases MAX_ROUNDS - played,
{
    if played >= MAX_ROUNDS || fleet_in_retreat(att) || fleet_in_retreat(def) {
        (att, def, Seq::empty())
    } else {
        let att_fire = slots_weapons(att.squadrons);
        let def_fire = slots_weapons(def.squadrons);
        let next = play_rounds(fleet_after_round(att, def_fire), fleet_after_round(def, att_fire), played + 1);
        (next.0, next.1, seq![(round_records(att, def_fire), round_records(def, att_fire))] + next.2)
    }
}

/// Everything an engagement produces: both fleets afterwards and the report.
pub struct BattleOutcome {
    pub attacker: FleetModel,
    pub defender: FleetModel,
    pub report: BattleReport,
}

/// The engagement of `att` against `def`. The defender wins when the
/// attacker has nothing left to fight with at the end; otherwise, and so
/// also when the round cap is reached with both sides still fighting, the
/// attacker wins. Each side's losses are the drop in its fleet's value.
pub open spec fn battle_outcome(att: FleetModel, def: FleetModel) -> BattleOutcome {
    let end = play_rounds(att, def, 0);
    BattleOutcome {
        attacker: end.0,
        defender: end.1,
        report: BattleReport {
            winner: if fleet_in_retreat(end.0) {
                BattleSide::Defender
            } else {
                BattleSide::Attacker
            },
            rounds: end.2,
            att_losses: sub_resources(fleet_value(att), fleet_value(end.0)),
            def_losses: sub_resources(fleet_value(def), fleet_value(end.1)),
        },
    }
}

/// Resolves an engagement between two fleets, leaving both fleets as the
/// battle left them.
pub fn fleet_battle(attacker_fleet: &mut Fleet, defender_fleet: &mut Fleet) -> (r: BattleResult)
    requires
        old(attacker_fleet).wf(),
        old(defender_fleet).wf(),
    ensures
        r@ == battle_outcome(old(attacker_fleet)@, old(defender_fleet)@).report,
        final(attacker_fleet)@ == battle_outcome(old(attacker_fleet)@, old(defender_fleet)@).attacker,
        final(defender_fleet)@ == battle_outcome(old(attacker_fleet)@, old(defender_fleet)@).defender,
        final(attacker_fleet).wf(),
        final(defender_fleet).wf(),
        fleet_evolves(old(attacker_fleet)@, final(attacker_fleet)@),
        fleet_evolves(old(defender_fleet)@, final(defender_fleet)@),
        r.rounds.len() <= MAX_ROUNDS,
        losses_account_for(r.att_losses, fleet_value(final(attacker_fleet)@), fleet_value(old(attacker_fleet)@)),
        losses_account_for(r.def_losses, fleet_value(final(defender_fleet)@), fleet_value(old(defender_fleet)@)),
{
    let att_init_cost = attacker_fleet.get_quote();
    let def_init_cost = defender_fleet.get_quote();
    let ghost att0 = attacker_fleet@;
    let ghost def0 = defender_fleet@;
    let mut round: usize = 0;
    let mut rounds: Vec<RoundPair> = Vec::new();
    proof {
        assert(rounds@.map_values(|p: RoundPair| round_log(p)) + play_rounds(att0, def0, 0).2
            =~= play_rounds(att0, def0, 0).2);
    }
    while !attacker_fleet.in_retreat() && !defender_fleet.in_retreat() && round < MAX_ROUNDS
        invariant
            attacker_fleet.wf(),
            defender_fleet.wf(),
            round <= MAX_ROUNDS,
            rounds@.len() == round,
            play_rounds(att0, def0, 0).0 == play_rounds(attacker_fleet@, defender_fleet@, round as nat).0,
            play_rounds(att0, def0, 0).1 == play_rounds(attacker_fleet@, defender_fleet@, round as nat).1,
            play_rounds(att0, def0, 0).2 == rounds@.map_values(|p: RoundPair| round_log(p))
                + play_rounds(attacker_fleet@, defender_fleet@, round as nat).2,
        decreases MAX_ROUNDS - round,
    {
        let ghost a = attacker_fleet@;
        let ghost d = defender_fleet@;
        let att_weapons = attacker_fleet.get_battle_strength().weapons;
        let def_weapons = defender_fleet.get_battle_strength().weapons;
        let att_round = attacker_fleet.take_losses(&def_weapons);
        let def_round = defender_fleet.take_losses(&att_weapons);
        let ghost old_rounds = rounds@;
        rounds.push((att_round, def_round));
        proof {
            let rest = play_rounds(attacker_fleet@, defender_fleet@, (round + 1) as nat).2;
            let entry = (round_records(a, def_weapons), round_records(d, att_weapons));
            assert(round_log((att_round, def_round)) == entry);
            assert(rounds@.map_values(|p: RoundPair| round_log(p))
                =~= old_rounds.map_values(|p: RoundPair| round_log(p)).push(entry));
            assert(old_rounds.map_values(|p: RoundPair| round_log(p)) + (seq![entry] + rest)
                =~= rounds@.map_values(|p: RoundPair| round_log(p)) + rest);
        }
        round = round + 1;
    }
    proof {
        assert(rounds@.map_values(|p: RoundPair| round_log(p))
            =~= rounds@.map_values(|p: RoundPair| round_log(p)) + Seq::<RoundLog>::empty());
    }
    let winner = if attacker_fleet.in_retreat() {
        BattleSide::Defender
    } else {
        BattleSide::Attacker
    };
    let att_new_cost = attacker_fleet.get_quote();
    let def_new_cost = defender_fleet.get_quote();
    proof {
        lemma_losses_balance(att0, def0);
        lemma_battle_only_takes_ships(att0, def0);
    }
    BattleResult {
        winner,
        rounds,
        att_losses: att_init_cost.sub(att_new_cost),
        def_losses: def_init_cost.sub(def_new_cost),
    }
}

/// What the winner of an engagement is credited with: a third of its own
/// losses plus a fifth of the loser's, each rounded down.
pub open spec fn spoils_of(r: BattleReport) -> Resources {
    match r.winner {
        BattleSide::Attacker => add_resources(divide_resources(r.att_losses, 3), divide_resources(r.def_losses, 5)),
        BattleSide::Defender => add_resources(divide_resources(r.def_losses, 3), divide_resources(r.att_losses, 5)),
    }
}

/// The resources the winner of an engagement is credited with.
pub fn battle_spoils(result: &BattleResult) -> (r: Resources)
    ensures
        r == spoils_of(result@),
{
    match result.winner {
        BattleSide::Attacker => result.att_losses.div(3).sum(result.def_losses.div(5)),
        BattleSide::Defender => result.def_losses.div(3).sum(result.att_losses.div(5)),
    }
}

/// `loss` plus what is left is exactly what there was, for every resource.
pub open spec fn losses_account_for(loss: Resources, left: Resources, before: Resources) -> bool {
    &&& loss.igt + left.igt == before.igt
    &&& loss.metal + left.metal == before.metal
    &&& loss.crystal + left.crystal == before.crystal
    &&& loss.chemical + left.chemical == before.chemical
    &&& loss.fuel + left.fuel == before.fuel
}

proof fn lemma_play_rounds(att: FleetModel, def: FleetModel, played: nat)
    requires
        att.wf(),
        def.wf(),
    ensures
        play_rounds(att, def, played).0.wf(),
        play_rounds(att, def, played).1.wf(),
        fleet_evolves(att, play_rounds(att, def, played).0),
        fleet_evolves(def, play_rounds(att, def, played).1),
        play_rounds(att, def, played).2.len() <= if played <= MAX_ROUNDS {
            MAX_ROUNDS - played
        } else {
            0
        },
    decreases MAX_ROUNDS - played,
{
    if !(played >= MAX_ROUNDS || fleet_in_retreat(att) || fleet_in_retreat(def)) {
        let att_fire = slots_weapons(att.squadrons);
        let def_fire = slots_weapons(def.squadrons);
        let att2 = fleet_after_round(att, def_fire);
        let def2 = fleet_after_round(def, att_fire);
        lemma_round_only_takes_ships(att, def_fire);
        lemma_round_only_takes_ships(def, att_fire);
        lemma_play_rounds(att2, def2, played + 1);
        let next = play_rounds(att2, def2, played + 1);
        lemma_evolves_transitive(att, att2, next.0);
        lemma_evolves_transitive(def, def2, next.1);
    } else {
        assert forall|i: int| 0 <= i < att.squadrons.len() implies crate::fleet::slot_evolves(
            #[trigger] att.squadrons[i],
            att.squadrons[i],
        ) by {}
        assert forall|i: int| 0 <= i < def.squadrons.len() implies crate::fleet::slot_evolves(
            #[trigger] def.squadrons[i],
            def.squadrons[i],
        ) by {}
    }
}

/// The same two fleets always make the same engagement: the winner, the
/// round log, both losses and both fleets afterwards depend on the fleets
/// alone.
pub proof fn lemma_battle_deterministic(att1: FleetModel, def1: FleetModel, att2: FleetModel, def2: FleetModel)
    requires
        att1 == att2,
        def1 == def2,
    ensures
        battle_outcome(att1, def1) == battle_outcome(att2, def2),
{
}

/// No engagement lasts more than `MAX_ROUNDS` rounds.
pub proof fn lemma_round_cap(att: FleetModel, def: FleetModel)
    requires
        att.wf(),
        def.wf(),
    ensures
        battle_outcome(att, def).report.rounds.len() <= MAX_ROUNDS,
{
    lemma_play_rounds(att, def, 0);
}

/// Over a whole engagement no squadron gains ships, none changes design or
/// slot, and a squadron that came in gone leaves exactly as it came.
pub proof fn lemma_battle_only_takes_ships(att: FleetModel, def: FleetModel)
    requires
        att.wf(),
        def.wf(),
    ensures
        fleet_evolves(att, battle_outcome(att, def).attacker),
        fleet_evolves(def, battle_outcome(att, def).defender),
        battle_outcome(att, def).attacker.wf(),
        battle_outcome(att, def).defender.wf(),
{
    lemma_play_rounds(att, def, 0);
}

/// Each side's reported losses plus the value of its fleet after the battle
/// are exactly the value of its fleet before: value goes only with ships lost.
pub proof fn lemma_losses_balance(att: FleetModel, def: FleetModel)
    requires
        att.wf(),
        def.wf(),
    ensures
        losses_account_for(
            battle_outcome(att, def).report.att_losses,
            fleet_value(battle_outcome(att, def).attacker),
            fleet_value(att),
        ),
        losses_account_for(
            battle_outcome(att, def).report.def_losses,
            fleet_value(battle_outcome(att, def).defender),
            fleet_value(def),
        ),
{
    lemma_play_rounds(att, def, 0);
    let o = battle_outcome(att, def);
    lemma_value_never_grows(att.squadrons, o.attacker.squadrons);
    lemma_value_never_grows(def.squadrons, o.defender.squadrons);
}

} // verus!
