use rand::SeedableRng;
use rand::rngs::StdRng;
use talisman_sim::combat::CombatStats;
use talisman_sim::inventory::{Inventory, Item};
use talisman_sim::loot::{Loot, Reward};
use talisman_sim::opponent::{ArchetypeError, RollsGemtable};
use talisman_sim::player::{GameContext, Loadout, MagicDps, MeleeDps, MeleeStyle, Player, PlayerCoords};
use talisman_sim::trial::{
    after_kill, after_meal, begin_step, drop_rolls, needs_food, ready, search_talisman,
    search_talismans, settle, summarize_search, upkeep, Step, TallyReport, TrialOutcome, TrialState,
    FOOD_HP,
};

const BUDGET: usize = 20_000_000;

fn pirate() -> RollsGemtable {
    RollsGemtable {
        name: "pirate".to_string(),
        chance: 1,
        outof: 128,
        stats: CombatStats { str_level: 21, def_level: 21, att_level: 21, hp_level: 20, current_hp: 20 },
        ticks_between_trips: 50,
        available_npcs: 8,
        attack_rate: 5,
        strength: 10,
        accuracy: 8,
        style_defense: 2,
        respawn_rate: 25,
    }
}

fn melee() -> Loadout {
    Loadout::Melee(MeleeDps { str_bonus: 30, style: MeleeStyle::Aggressive, accuracy: 69, rate: 5, def_bonus: 103 })
}

fn context_with(stats: CombatStats) -> GameContext {
    GameContext::new(true, Player::new(melee(), Inventory::default(), PlayerCoords::new(0, 0, 0), stats))
}

fn context() -> GameContext {
    context_with(CombatStats { str_level: 60, def_level: 40, att_level: 60, hp_level: 60, current_hp: 60 })
}

fn summary_line(outcomes: &[TrialOutcome]) -> Vec<(u8, usize, u32)> {
    outcomes
        .iter()
        .map(|o| match o {
            TrialOutcome::Found(r) => (0, r.to_ticks(), r.food_eaten),
            TrialOutcome::Died => (1, 0, 0),
            TrialOutcome::OutOfTime => (2, 0, 0),
        })
        .collect()
}

#[test]
fn feeding_counter_wraps_at_capacity() {
    let mut counter = 0u32;
    let mut trips = 0;
    for meal in 1..=60u32 {
        let (next, trip) = after_meal(counter);
        counter = next;
        if trip {
            trips += 1;
            assert_eq!(meal % 28, 0);
            assert_eq!(counter, 0);
        } else {
            assert_eq!(counter, meal % 28);
        }
    }
    assert_eq!(trips, 2);
    assert_eq!(after_meal(27), (0, true));
    assert_eq!(after_meal(26), (27, false));
}

#[test]
fn danger_threshold() {
    assert!(needs_food(39, 60));
    assert!(!needs_food(40, 60));
    assert!(!needs_food(0, 20));
    assert!(needs_food(0, 21));
    assert!(!needs_food(u32::MAX, u32::MAX));
}

#[test]
fn tally_report_accumulates() {
    let mut r = TallyReport::new(FOOD_HP);
    assert_eq!(r.food_hp(), 9);
    r.eat();
    r.eat();
    r.bank(50);
    r.bank(50);
    r.wait_for_spawn(25);
    r.ticks_elapsed = 1000;
    assert_eq!(r.food_eaten, 2);
    assert_eq!(r.ticks_between_trips, 100);
    assert_eq!(r.ticks_waiting_for_spawn, 25);
    assert_eq!(r.to_ticks(), 1125);
}

#[test]
fn archetype_checks() {
    assert_eq!(pirate().check(), Ok(()));
    let mut a = pirate();
    a.attack_rate = 0;
    assert_eq!(a.check(), Err(ArchetypeError::ZeroAttackRate));
    let mut b = pirate();
    b.outof = 0;
    assert_eq!(b.check(), Err(ArchetypeError::ZeroDropDenominator));
    let mut c = pirate();
    c.chance = 129;
    assert_eq!(c.check(), Err(ArchetypeError::ChanceAboveDenominator));
    let mut d = pirate();
    d.stats.current_hp = 21;
    assert_eq!(d.check(), Err(ArchetypeError::HealthAboveLevel));
    let mut e = pirate();
    e.strength = u32::MAX;
    assert_eq!(e.check(), Err(ArchetypeError::StatsOutOfRange));
}

#[test]
fn readiness() {
    assert!(ready(&pirate(), &context(), BUDGET));
    assert!(!ready(&pirate(), &context(), u32::MAX as usize + 1));
    let mut bad = pirate();
    bad.attack_rate = 0;
    assert!(!ready(&bad, &context(), BUDGET));
    let mut mage = context();
    mage.player.loadout = Loadout::Magic(MagicDps {});
    assert!(!ready(&pirate(), &mage, BUDGET));
    let mut dup = context();
    dup.player.inventory.items[0] = Some(Item::new("coins", 1));
    dup.player.inventory.items[1] = Some(Item::new("coins", 1));
    assert!(!ready(&pirate(), &dup, BUDGET));
}

#[test]
fn seeded_runs_are_reproducible() {
    let mob = pirate();
    let ctx = context();
    let mut first_rng = StdRng::seed_from_u64(2024);
    let first = search_talismans(&mob, &ctx, 10, BUDGET, &mut first_rng);
    let mut second_rng = StdRng::seed_from_u64(2024);
    let second = search_talismans(&mob, &ctx, 10, BUDGET, &mut second_rng);
    assert_eq!(first.len(), 10);
    assert_eq!(format!("{:?}", first), format!("{:?}", second));
    assert_eq!(summary_line(&first), summary_line(&second));
}

#[test]
fn successful_reports_charge_one_trip_per_supply() {
    let mob = pirate();
    let ctx = context();
    let mut rng = StdRng::seed_from_u64(99);
    let outcomes = search_talismans(&mob, &ctx, 5, BUDGET, &mut rng);
    let mut found = 0;
    for o in &outcomes {
        if let TrialOutcome::Found(r) = o {
            found += 1;
            assert_eq!(r.food_hp, FOOD_HP);
            assert!(r.ticks_elapsed > 0 && r.ticks_elapsed <= BUDGET);
            assert!(r.food_eaten as usize <= r.ticks_elapsed);
            assert_eq!(r.ticks_between_trips, (r.food_eaten as usize / 28) * 50);
        }
    }
    assert!(found > 0);
}

#[test]
fn trial_against_unkillable_opponent_ends() {
    // the player cannot bring this opponent down in the budget, and its hits hurt
    let mut mob = pirate();
    mob.stats = CombatStats { str_level: 90, def_level: 90, att_level: 90, hp_level: 60000, current_hp: 60000 };
    let weak = context_with(CombatStats { str_level: 0, def_level: 0, att_level: 0, hp_level: 10, current_hp: 10 });
    let mut rng = StdRng::seed_from_u64(5);
    let r = search_talisman(&mob, &weak, 5000, &mut rng);
    assert!(matches!(r, TrialOutcome::Died));
}

#[test]
fn trial_budget_runs_out() {
    // an opponent that never attacks in phase one and cannot be killed in time
    let mut mob = pirate();
    mob.attack_rate = 1;
    mob.stats = CombatStats { str_level: 1, def_level: 1, att_level: 1, hp_level: 60000, current_hp: 60000 };
    let ctx = context();
    let mut rng = StdRng::seed_from_u64(6);
    let r = search_talisman(&mob, &ctx, 100, &mut rng);
    assert!(matches!(r, TrialOutcome::OutOfTime));
}

#[test]
fn summary_counts_successes_only() {
    let mut a = TallyReport::new(FOOD_HP);
    a.ticks_elapsed = 100;
    a.ticks_between_trips = 50;
    a.food_eaten = 3;
    let mut b = TallyReport::new(FOOD_HP);
    b.ticks_elapsed = 40;
    b.ticks_waiting_for_spawn = 10;
    b.food_eaten = 1;
    let outcomes = vec![
        TrialOutcome::Found(a),
        TrialOutcome::Died,
        TrialOutcome::Found(b),
        TrialOutcome::OutOfTime,
    ];
    let s = summarize_search(&outcomes);
    assert_eq!(s.trials, 4);
    assert_eq!(s.successes, 2);
    assert_eq!(s.total_ticks, 200);
    assert_eq!(s.total_food, 4);
    let empty = summarize_search(&Vec::new());
    assert_eq!((empty.trials, empty.successes, empty.total_ticks, empty.total_food), (0, 0, 0, 0));
}

fn player_stats(hp: u32) -> CombatStats {
    CombatStats { str_level: 60, def_level: 40, att_level: 60, hp_level: 60, current_hp: hp }
}

fn mob_stats(hp: u32) -> CombatStats {
    CombatStats { str_level: 21, def_level: 21, att_level: 21, hp_level: 20, current_hp: hp }
}

fn state(tick: usize, player_hp: u32, mob_hp: u32, counter: u32) -> TrialState {
    TrialState {
        tick,
        player: player_stats(player_hp),
        mob: mob_stats(mob_hp),
        live_mobs: 3,
        spawn_on: None,
        counter,
        report: TallyReport::new(FOOD_HP),
    }
}

#[test]
fn upkeep_regenerates_every_hundred_steps() {
    let mut s = state(200, 50, 5, 0);
    upkeep(&mut s, 50);
    assert_eq!(s.player.current_hp, 51);
    s.tick = 201;
    upkeep(&mut s, 50);
    assert_eq!(s.player.current_hp, 51);
    assert_eq!((s.counter, s.report.food_eaten, s.mob.current_hp), (0, 0, 5));
}

#[test]
fn upkeep_feeds_below_threshold() {
    let mut s = state(7, 30, 5, 3);
    upkeep(&mut s, 50);
    assert_eq!(s.player.current_hp, 39);
    assert_eq!(s.counter, 4);
    assert_eq!(s.report.food_eaten, 1);
    assert_eq!(s.report.ticks_between_trips, 0);
    assert_eq!(s.mob.current_hp, 5);
    // at the threshold no meal is taken
    let mut t = state(7, 40, 5, 4);
    upkeep(&mut t, 50);
    assert_eq!((t.player.current_hp, t.counter, t.report.food_eaten), (40, 4, 0));
}

#[test]
fn upkeep_banks_after_the_last_meal_of_a_supply() {
    let mut s = state(7, 10, 5, 27);
    s.report.food_eaten = 27;
    upkeep(&mut s, 50);
    assert_eq!(s.counter, 0);
    assert_eq!(s.report.food_eaten, 28);
    assert_eq!(s.report.ticks_between_trips, 50);
    assert_eq!(s.player.current_hp, 60);
    assert_eq!(s.mob.current_hp, 20);
    // the next meal starts a new supply and charges nothing
    s.tick = 8;
    s.player.current_hp = 10;
    upkeep(&mut s, 50);
    assert_eq!((s.counter, s.report.ticks_between_trips, s.player.current_hp), (1, 50, 19));
}

#[test]
fn begin_step_respawns_on_schedule() {
    let mob = pirate();
    let mut s = state(30, 60, 0, 0);
    s.live_mobs = 0;
    s.spawn_on = Some(31);
    assert!(!begin_step(&mob, &mut s));
    assert_eq!((s.live_mobs, s.spawn_on, s.mob.current_hp), (0, Some(31), 0));
    s.tick = 31;
    assert!(begin_step(&mob, &mut s));
    assert_eq!((s.live_mobs, s.spawn_on, s.mob.current_hp), (1, None, 20));
}

#[test]
fn settle_decides_the_step() {
    let mob = pirate();
    let s = state(9, 60, 20, 0);
    let talisman = Some(Loot { reward: Reward::NatureTalisman, quantity: 1 });
    let sapphire = Some(Loot { reward: Reward::UncutSapphire, quantity: 1 });
    // the player's death comes first
    assert_eq!(settle(&mob, &s, 0, 0, 0, talisman), Step::Done(TrialOutcome::Died));
    // both alive: next step with the new hit points
    match settle(&mob, &s, 55, 12, 0, talisman) {
        Step::Next(n) => {
            assert_eq!((n.tick, n.player.current_hp, n.mob.current_hp, n.live_mobs), (10, 55, 12, 3))
        },
        other => panic!("unexpected {:?}", other),
    }
    // a kill whose drop gate passes and whose gem table gives the talisman
    match settle(&mob, &s, 55, 0, 128, talisman) {
        Step::Done(TrialOutcome::Found(r)) => assert_eq!(r.ticks_elapsed, 10),
        other => panic!("unexpected {:?}", other),
    }
    // a failed drop gate, or another gem, books the kill
    for (drop, gem) in [(1u32, talisman), (0u32, sapphire), (0u32, None)] {
        match settle(&mob, &s, 55, 0, drop, gem) {
            Step::Next(n) => assert_eq!((n.tick, n.live_mobs, n.spawn_on), (10, 2, Some(34))),
            other => panic!("unexpected {:?}", other),
        }
    }
    let mut last = s;
    last.live_mobs = 1;
    match settle(&mob, &last, 55, 0, 1, None) {
        Step::Next(n) => assert_eq!((n.live_mobs, n.report.ticks_waiting_for_spawn), (0, 25)),
        other => panic!("unexpected {:?}", other),
    }
}

#[test]
fn trials_without_opponents_or_budget_run_out() {
    let mut empty = pirate();
    empty.available_npcs = 0;
    let mut rng = StdRng::seed_from_u64(1);
    assert_eq!(search_talisman(&empty, &context(), 500, &mut rng), TrialOutcome::OutOfTime);
    assert_eq!(search_talisman(&pirate(), &context(), 0, &mut rng), TrialOutcome::OutOfTime);
}

#[test]
fn non_members_never_find_the_talisman() {
    let mut ctx = context();
    ctx.is_members = false;
    let mut rng = StdRng::seed_from_u64(8);
    let outcomes = search_talismans(&pirate(), &ctx, 2, 200_000, &mut rng);
    assert!(outcomes.iter().all(|o| !matches!(o, TrialOutcome::Found(_))));
}

#[test]
fn kill_bookkeeping() {
    let mut live = 2u32;
    let mut spawn_on = Some(3usize);
    let mut report = TallyReport::new(FOOD_HP);
    after_kill(10, &mut live, &mut spawn_on, &mut report, 25);
    assert_eq!((live, spawn_on, report.ticks_waiting_for_spawn), (1, Some(35), 0));
    after_kill(12, &mut live, &mut spawn_on, &mut report, 25);
    assert_eq!((live, spawn_on, report.ticks_waiting_for_spawn), (0, Some(37), 25));
}

#[test]
fn drop_chance_formula() {
    assert!(drop_rolls(0, 1, 128));
    assert!(!drop_rolls(1, 1, 128));
    assert!(drop_rolls(128, 1, 128));
    assert!(!drop_rolls(5, 0, 128));
    assert!(drop_rolls(u32::MAX, 1, 1));
    assert!(drop_rolls(130, 3, 129));
}

#[test]
fn known_approximation_banking_keeps_step_phase() {
    // A banking trip charges its time to the report but does not move the
    // step counter: regeneration (and the attack cadence) keep their phase.
    let mut s = state(99, 10, 5, 27);
    upkeep(&mut s, 500);
    assert_eq!((s.player.current_hp, s.report.ticks_between_trips, s.tick), (60, 500, 99));
    s.player.current_hp = 50;
    s.tick = 100;
    upkeep(&mut s, 500);
    assert_eq!(s.player.current_hp, 51);
}
