//! One trial: hunt an archetype, feeding, banking and waiting for respawns,
//! until the nature talisman drops or the player dies; and the driver that
//! runs many trials and sums their results.

use vstd::prelude::*;
use crate::combat::{chance_of, run_combat_tick, strike_spec, CombatStats, HasCombatStats};
use crate::draws::random_u32;
use crate::inventory::Inventory;
use crate::loot::{
    holds_ring, jewel_outcome, lemma_nature_talisman_needs_members_below_threshold, random_jewel,
    Loot, Reward, CHAOS_REGION_Z,
};
use crate::opponent::RollsGemtable;
use crate::player::{GameContext, Player};

verus! {

/// Hit points one piece of food restores.
pub const FOOD_HP: u32 = 9;

/// Food carried per banking trip: one inventory of it.
pub const FOOD_PER_TRIP: u32 = 28;

/// The player eats once below this many hit points under the maximum.
pub const DANGER_MARGIN: u32 = 20;

/// Steps between two points of natural regeneration.
pub const REGEN_INTERVAL: usize = 100;

/// Food, banking time and waiting time spent during one trial.
#[derive(Clone, Copy, Debug, PartialEq, Eq, Structural)]
pub struct TallyReport {
    pub food_hp: u32,
    pub food_eaten: u32,
    pub ticks_between_trips: usize,
    pub ticks_waiting_for_spawn: usize,
    /// Steps simulated until the trial ended.
    pub ticks_elapsed: usize,
}

impl TallyReport {
    /// Elapsed steps plus banking and waiting time.
    pub open spec fn total_ticks(&self) -> int {
        self.ticks_elapsed + self.ticks_between_trips + self.ticks_waiting_for_spawn
    }

    pub fn new(food_hp: u32) -> (r: TallyReport)
        ensures
            r == (TallyReport {
                food_hp,
                food_eaten: 0,
                ticks_between_trips: 0,
                ticks_waiting_for_spawn: 0,
                ticks_elapsed: 0,
            }),
    {
        TallyReport {
            food_hp: food_hp,
            food_eaten: 0,
            ticks_between_trips: 0,
            ticks_waiting_for_spawn: 0,
            ticks_elapsed: 0,
        }
    }

    /// Charges one banking trip.
    pub fn bank(&mut self, ticks_till_return: usize)
        requires
            old(self).ticks_between_trips + ticks_till_return <= usize::MAX,
        ensures
            *final(self) == (TallyReport {
                ticks_between_trips: (old(self).ticks_between_trips + ticks_till_return) as usize,
                ..*old(self)
            }),
    {
        self.ticks_between_trips += ticks_till_return;
    }

    pub fn eat(&mut self)
        requires
            old(self).food_eaten < u32::MAX,
        ensures
            *final(self) == (TallyReport {
                food_eaten: (old(self).food_eaten + 1) as u32,
                ..*old(self)
            }),
    {
        self.food_eaten += 1;
    }

    pub fn food_hp(&self) -> (r: u32)
        ensures
            r == self.food_hp,
    {
        self.food_hp
    }

    /// Charges waiting for an emptied pool to respawn.
    pub fn wait_for_spawn(&mut self, ticks_till_spawn: usize)
        requires
            old(self).ticks_waiting_for_spawn + ticks_till_spawn <= usize::MAX,
        ensures
            *final(self) == (TallyReport {
                ticks_waiting_for_spawn: (old(self).ticks_waiting_for_spawn + ticks_till_spawn) as usize,
                ..*old(self)
            }),
    {
        self.ticks_waiting_for_spawn += ticks_till_spawn;
    }

    /// Elapsed steps plus banking and waiting time.
    pub fn to_ticks(&self) -> (r: usize)
        requires
            self.total_ticks() <= usize::MAX,
        ensures
            r == self.total_ticks(),
    {
        self.ticks_elapsed + self.ticks_between_trips + self.ticks_waiting_for_spawn
    }
}

/// How a trial ended.
#[derive(Clone, Copy, Debug, PartialEq, Eq, Structural)]
pub enum TrialOutcome {
    /// The talisman dropped.
    Found(TallyReport),
    /// The player died first.
    Died,
    /// The step budget ran out first.
    OutOfTime,
}

/// Below the danger threshold `hp_level - 20` (never, for levels under 20).
pub open spec fn in_danger(current_hp: u32, hp_level: u32) -> bool {
    current_hp + DANGER_MARGIN < hp_level
}

pub fn needs_food(current_hp: u32, hp_level: u32) -> (r: bool)
    ensures
        r == in_danger(current_hp, hp_level),
{
    (current_hp as u64) + (DANGER_MARGIN as u64) < hp_level as u64
}

/// Hit points after the regeneration of step `tick`: one point every 100 steps.
pub open spec fn regen_spec(tick: usize, stats: CombatStats) -> CombatStats {
    if tick % REGEN_INTERVAL == 0 {
        stats.after_heal(1)
    } else {
        stats
    }
}

/// Whether the meal taken with the feeding counter at `counter` ends a supply.
pub open spec fn trip_due(counter: u32) -> bool {
    counter + 1 == FOOD_PER_TRIP
}

/// Everything a trial carries from one step to the next.
#[derive(Clone, Copy, Debug, PartialEq, Eq, Structural)]
pub struct TrialState {
    /// The step about to run.
    pub tick: usize,
    pub player: CombatStats,
    /// The current opponent instance.
    pub mob: CombatStats,
    pub live_mobs: u32,
    /// The step at which the last opponent to die comes back.
    pub spawn_on: Option<usize>,
    /// Meals eaten from the current food supply.
    pub counter: u32,
    pub report: TallyReport,
}

/// The random results one step may consume: two strikes (hit and damage
/// draws), the drop gate's draw, and the gem table's draw with the draw of
/// the nested table it may lead to. A step ignores what it does not reach.
#[derive(Clone, Copy, Debug, PartialEq, Eq, Structural)]
pub struct StepDraws {
    pub attack_hit: u64,
    pub attack_damage: u32,
    pub answer_hit: u64,
    pub answer_damage: u32,
    pub drop: u32,
    pub gem: u32,
    pub gem_next: u32,
}

/// Where a step leads: the state of the next step, or the end of the trial.
#[derive(Clone, Copy, Debug, PartialEq, Eq, Structural)]
pub enum Step {
    Next(TrialState),
    Done(TrialOutcome),
}

/// The state after the regeneration and feeding that open a step: one point
/// every 100 steps; then, below the danger threshold, one meal of
/// `report.food_hp`; and after the 28th meal of a supply a banking trip that
/// resets the counter, charges `trip_cost` once and heals both sides fully.
pub open spec fn upkeep_spec(s: TrialState, trip_cost: usize) -> TrialState {
    let healed = regen_spec(s.tick, s.player);
    if in_danger(healed.current_hp, healed.hp_level) {
        let fed = healed.after_heal(s.report.food_hp);
        let trip = trip_due(s.counter);
        TrialState {
            player: if trip { fed.after_heal(fed.hp_level) } else { fed },
            mob: if trip { s.mob.after_heal(s.mob.hp_level) } else { s.mob },
            counter: if trip { 0 } else { (s.counter + 1) as u32 },
            report: TallyReport {
                food_eaten: (s.report.food_eaten + 1) as u32,
                ticks_between_trips: (s.report.ticks_between_trips + if trip { trip_cost } else { 0 }) as usize,
                ..s.report
            },
            ..s
        }
    } else {
        TrialState { player: healed, ..s }
    }
}

/// The bookkeeping that opens every step, before any respawn or combat.
pub fn upkeep(state: &mut TrialState, trip_cost: usize)
    requires
        old(state).counter < FOOD_PER_TRIP,
        old(state).report.food_eaten < u32::MAX,
        trip_due(old(state).counter) ==> old(state).report.ticks_between_trips + trip_cost <= usize::MAX,
    ensures
        *final(state) == upkeep_spec(*old(state), trip_cost),
        final(state).counter < FOOD_PER_TRIP,
{
    if state.tick % REGEN_INTERVAL == 0 {
        // regeneration is not resynchronised after a banking trip
        state.player.heal_hp(1);
    }
    if needs_food(state.player.current_hp, state.player.hp_level) {
        let food_hp = state.report.food_hp();
        state.player.heal_hp(food_hp);
        state.report.eat();
        let (next, trip_due) = after_meal(state.counter);
        state.counter = next;
        if trip_due {
            // banking does not move the step counter, so the attack cadence keeps its phase
            state.report.bank(trip_cost);
            let level = state.player.hp_level;
            state.player.heal_hp(level);
            let mob_level = state.mob.hp_level;
            state.mob.heal_hp(mob_level);
        }
    }
}

/// The state after upkeep and the scheduled respawn, which brings a fresh
/// opponent from the template.
pub open spec fn begin_spec(base_mob: RollsGemtable, s: TrialState) -> TrialState {
    let u = upkeep_spec(s, base_mob.ticks_between_trips);
    if u.spawn_on == Some(u.tick) {
        TrialState { live_mobs: (u.live_mobs + 1) as u32, mob: base_mob.stats, spawn_on: None, ..u }
    } else {
        u
    }
}

/// Opens a step; returns whether an opponent is alive to fight.
pub fn begin_step(base_mob: &RollsGemtable, state: &mut TrialState) -> (engaged: bool)
    requires
        old(state).counter < FOOD_PER_TRIP,
        old(state).report.food_eaten < u32::MAX,
        trip_due(old(state).counter) ==> old(state).report.ticks_between_trips
            + base_mob.ticks_between_trips <= usize::MAX,
        old(state).spawn_on == Some(old(state).tick) ==> old(state).live_mobs < u32::MAX,
    ensures
        *final(state) == begin_spec(*base_mob, *old(state)),
        engaged == (final(state).live_mobs > 0),
        final(state).counter < FOOD_PER_TRIP,
{
    upkeep(state, base_mob.ticks_between_trips);
    if state.spawn_on == Some(state.tick) {
        state.live_mobs = state.live_mobs + 1;
        state.mob = base_mob.stats;
        state.spawn_on = None;
    }
    state.live_mobs > 0
}

/// How an engaged step ends, from the hit points after both strikes, the
/// drop gate's draw and the gem table's result: the player's death ends the
/// trial; an opponent's death whose drop gate passes and whose gem table
/// gives a nature talisman ends it with the talisman found after `tick + 1`
/// steps; any other death is booked by `after_kill`.
pub open spec fn settle_spec(
    base_mob: RollsGemtable,
    b: TrialState,
    player_hp: u32,
    mob_hp: u32,
    drop: u32,
    gem: Option<Loot>,
) -> Step {
    let s = TrialState {
        player: CombatStats { current_hp: player_hp, ..b.player },
        mob: CombatStats { current_hp: mob_hp, ..b.mob },
        ..b
    };
    if player_hp == 0 {
        Step::Done(TrialOutcome::Died)
    } else if mob_hp == 0 {
        if drop % base_mob.outof < base_mob.chance && (gem matches Some(l) && l.reward
            == Reward::NatureTalisman) {
            Step::Done(TrialOutcome::Found(TallyReport { ticks_elapsed: (b.tick + 1) as usize, ..b.report }))
        } else {
            let live = (b.live_mobs - 1) as u32;
            Step::Next(
                TrialState {
                    tick: (b.tick + 1) as usize,
                    live_mobs: live,
                    spawn_on: Some((b.tick + base_mob.respawn_rate) as usize),
                    report: if live == 0 {
                        TallyReport {
                            ticks_waiting_for_spawn: (b.report.ticks_waiting_for_spawn
                                + base_mob.respawn_rate) as usize,
                            ..b.report
                        }
                    } else {
                        b.report
                    },
                    ..s
                },
            )
        }
    } else {
        Step::Next(TrialState { tick: (b.tick + 1) as usize, ..s })
    }
}

/// Ends an engaged step; see `settle_spec`.
pub fn settle(
    base_mob: &RollsGemtable,
    b: &TrialState,
    player_hp: u32,
    mob_hp: u32,
    drop: u32,
    gem: Option<Loot>,
) -> (r: Step)
    requires
        base_mob.outof > 0,
        b.live_mobs > 0,
        b.tick + 1 <= usize::MAX,
        b.tick + base_mob.respawn_rate <= usize::MAX,
        b.report.ticks_waiting_for_spawn + base_mob.respawn_rate <= usize::MAX,
    ensures
        r == settle_spec(*base_mob, *b, player_hp, mob_hp, drop, gem),
{
    let mut s = *b;
    s.player.current_hp = player_hp;
    s.mob.current_hp = mob_hp;
    if player_hp == 0 {
        return Step::Done(TrialOutcome::Died);
    }
    if mob_hp == 0 {
        if drop_rolls(drop, base_mob.chance, base_mob.outof) {
            match gem {
                Some(l) => {
                    if l.reward == Reward::NatureTalisman {
                        let mut report = b.report;
                        report.ticks_elapsed = b.tick + 1;
                        return Step::Done(TrialOutcome::Found(report));
                    }
                },
                None => {},
            }
        }
        let tick = b.tick;
        after_kill(tick, &mut s.live_mobs, &mut s.spawn_on, &mut s.report, base_mob.respawn_rate);
    }
    s.tick = b.tick + 1;
    Step::Next(s)
}

/// One whole step from state `s` with draws `d`: `begin_spec`; an idle step
/// when no opponent lives; otherwise the player's attack (phase 0 of its
/// cadence), the opponent's answer (phase 1 of its own), then `settle_spec`.
pub open spec fn step_spec(base_mob: RollsGemtable, context: GameContext, s: TrialState, d: StepDraws) -> Step {
    let b = begin_spec(base_mob, s);
    if b.live_mobs == 0 {
        Step::Next(TrialState { tick: (b.tick + 1) as usize, ..b })
    } else {
        let pp = context.player.profile();
        let mp = base_mob.profile();
        let mob_hp = if b.tick % pp.attack_rate == 0 {
            strike_spec(pp, mp, b.mob.current_hp, d.attack_hit, d.attack_damage)
        } else {
            b.mob.current_hp
        };
        let player_hp = if b.tick % mp.attack_rate == 1 {
            strike_spec(mp, pp, b.player.current_hp, d.answer_hit, d.answer_damage)
        } else {
            b.player.current_hp
        };
        settle_spec(
            base_mob,
            b,
            player_hp,
            mob_hp,
            d.drop,
            jewel_outcome(holds_ring(context), context.is_members, context.player.coords.z, d.gem, d.gem_next),
        )
    }
}

/// The state a trial starts from.
pub open spec fn initial_state(base_mob: RollsGemtable, context: GameContext) -> TrialState {
    TrialState {
        tick: 0,
        player: context.player.stats,
        mob: base_mob.stats,
        live_mobs: base_mob.available_npcs,
        spawn_on: None,
        counter: 0,
        report: TallyReport {
            food_hp: FOOD_HP,
            food_eaten: 0,
            ticks_between_trips: 0,
            ticks_waiting_for_spawn: 0,
            ticks_elapsed: 0,
        },
    }
}

/// Where the steps with draws `draws` lead from the initial state; once a
/// step ends the trial, later draws change nothing.
pub open spec fn after(base_mob: RollsGemtable, context: GameContext, draws: Seq<StepDraws>) -> Step
    decreases draws.len(),
{
    if draws.len() == 0 {
        Step::Next(initial_state(base_mob, context))
    } else {
        match after(base_mob, context, draws.drop_last()) {
            Step::Next(s) => step_spec(base_mob, context, s, draws.last()),
            Step::Done(o) => Step::Done(o),
        }
    }
}

/// The outcome of a trial whose steps draw `draws`, one entry per step of
/// the budget: the first step that ends it decides, and a trial that never
/// ends runs out of time.
pub open spec fn trial_spec(base_mob: RollsGemtable, context: GameContext, draws: Seq<StepDraws>) -> TrialOutcome {
    match after(base_mob, context, draws) {
        Step::Done(o) => o,
        Step::Next(_) => TrialOutcome::OutOfTime,
    }
}

/// `outcome` is what a trial of `max_ticks` steps gives for some draws.
pub open spec fn possible_outcome(
    base_mob: RollsGemtable,
    context: GameContext,
    max_ticks: usize,
    outcome: TrialOutcome,
) -> bool {
    exists|draws: Seq<StepDraws>|
        draws.len() == max_ticks && outcome == trial_spec(base_mob, context, draws)
}

proof fn lemma_done_stays(base_mob: RollsGemtable, context: GameContext, s: Seq<StepDraws>, pad: Seq<StepDraws>)
    requires
        after(base_mob, context, s) is Done,
    ensures
        after(base_mob, context, s + pad) == after(base_mob, context, s),
    decreases pad.len(),
{
    if pad.len() > 0 {
        lemma_done_stays(base_mob, context, s, pad.drop_last());
        assert((s + pad).drop_last() == s + pad.drop_last());
    } else {
        assert(s + pad == s);
    }
}

/// Whether a kill rolls the gem table: a draw reduced modulo `outof` falls
/// below `chance`.
pub fn drop_rolls(draw: u32, chance: u32, outof: u32) -> (r: bool)
    requires
        outof > 0,
    ensures
        r == (draw % outof < chance),
{
    draw % outof < chance
}

/// The bookkeeping after a kill that did not end the trial: one live
/// instance fewer, a respawn scheduled `respawn_rate` steps on (replacing any
/// earlier one), and the delay charged as waiting time when the pool is empty.
pub fn after_kill(
    tick: usize,
    live_mobs: &mut u32,
    spawn_on: &mut Option<usize>,
    report: &mut TallyReport,
    respawn_rate: usize,
)
    requires
        *old(live_mobs) > 0,
        tick + respawn_rate <= usize::MAX,
        *old(live_mobs) == 1 ==> old(report).ticks_waiting_for_spawn + respawn_rate <= usize::MAX,
    ensures
        *final(live_mobs) == *old(live_mobs) - 1,
        *final(spawn_on) == Some((tick + respawn_rate) as usize),
        *final(report) == if *final(live_mobs) == 0 {
            TallyReport {
                ticks_waiting_for_spawn: (old(report).ticks_waiting_for_spawn + respawn_rate) as usize,
                ..*old(report)
            }
        } else {
            *old(report)
        },
{
    *live_mobs -= 1;
    *spawn_on = Some(respawn_rate + tick);
    if *live_mobs == 0 {
        report.wait_for_spawn(respawn_rate);
    }
}

/// The feeding counter after one more meal, and whether that meal empties
/// the food supply so that a banking trip follows: the counter goes back to
/// zero exactly when it reaches 28.
pub fn after_meal(counter: u32) -> (r: (u32, bool))
    requires
        counter < FOOD_PER_TRIP,
    ensures
        r.1 == (counter + 1 == FOOD_PER_TRIP),
        r.0 == if r.1 { 0 } else { counter + 1 },
        r.0 < FOOD_PER_TRIP,
{
    let next = counter + 1;
    if next == FOOD_PER_TRIP {
        (0, true)
    } else {
        (next, false)
    }
}

/// Meals counted by `e` and the counter: one more meal either completes a
/// supply (the counter wraps, one more trip) or does not.
proof fn lemma_one_more_meal(e: int, trip: int)
    requires
        e >= 0,
    ensures
        e % 28 + 1 == 28 ==> (e + 1) / 28 == e / 28 + 1 && (e + 1) % 28 == 0 && ((e + 1) / 28)
            * trip == (e / 28) * trip + trip,
        e % 28 + 1 < 28 ==> (e + 1) / 28 == e / 28 && (e + 1) % 28 == e % 28 + 1 && ((e + 1) / 28)
            * trip == (e / 28) * trip,
        (0int / 28) * trip == 0,
{
    let q = e / 28;
    assert((q + 1) * trip == q * trip + trip) by (nonlinear_arith);
    assert((0int / 28) * trip == 0) by (nonlinear_arith);
}

/// The step budget bounds every accumulated cost.
proof fn lemma_budget(max: int, trip: int, respawn: int, k: int)
    requires
        0 <= k <= max,
        trip >= 0,
        respawn >= 0,
    ensures
        (k / 28) * trip <= max * trip,
        k * respawn <= max * respawn,
        max * (trip + respawn + 1) == max * trip + max * respawn + max,
        (k + 1) * respawn == k * respawn + respawn,
        k < max ==> k + respawn <= max * (trip + respawn + 1),
{
    assert((k + 1) * respawn == k * respawn + respawn) by (nonlinear_arith);
    assert(k < max ==> k + respawn <= max * respawn + max) by (nonlinear_arith)
        requires 0 <= k, respawn >= 0;
    assert(max * trip >= 0) by (nonlinear_arith)
        requires max >= 0, trip >= 0;
    assert((k / 28) * trip <= max * trip) by (nonlinear_arith)
        requires 0 <= k <= max, trip >= 0;
    assert(k * respawn <= max * respawn) by (nonlinear_arith)
        requires 0 <= k <= max, respawn >= 0;
    assert(max * (trip + respawn + 1) == max * trip + max * respawn + max) by (nonlinear_arith);
}

/// What holds of the report of a trial that found the talisman within
/// `max_ticks` steps against `mob`: one banking trip is charged per 28 meals,
/// never per meal, at most one meal is eaten per step, and all the time spent
/// fits in a `usize`.
pub open spec fn report_fits(report: TallyReport, mob: RollsGemtable, max_ticks: usize) -> bool {
    &&& report.food_hp == FOOD_HP
    &&& 0 < report.ticks_elapsed <= max_ticks
    &&& report.food_eaten <= report.ticks_elapsed
    &&& report.ticks_between_trips == (report.food_eaten / FOOD_PER_TRIP) * mob.ticks_between_trips
    &&& report.total_ticks() <= usize::MAX
}

/// What a trial needs: a valid archetype, a melee player whose hit formula
/// fits, a well-formed inventory, and a step budget under which every cost
/// fits in a `usize`.
pub open spec fn trial_ready(base_mob: RollsGemtable, context: GameContext, max_ticks: usize) -> bool {
    &&& base_mob.wf()
    &&& context.player.equipped()
    &&& context.player.profile().in_range()
    &&& context.player.stats.wf()
    &&& context.player.inventory.wf()
    &&& max_ticks <= u32::MAX
    &&& max_ticks * (base_mob.ticks_between_trips + base_mob.respawn_rate + 1) <= usize::MAX
}

/// Whether a trial may start: the conditions of `trial_ready`.
pub fn ready(base_mob: &RollsGemtable, context: &GameContext, max_ticks: usize) -> (r: bool)
    ensures
        r == trial_ready(*base_mob, *context, max_ticks),
{
    if base_mob.check().is_err() {
        return false;
    }
    match context.player.melee_profile() {
        Some(profile) => {
            if !profile.fits() {
                return false;
            }
        },
        None => {
            return false;
        },
    }
    if context.player.stats.current_hp > context.player.stats.hp_level {
        return false;
    }
    if !context.player.inventory.is_wf() {
        return false;
    }
    if max_ticks > u32::MAX as usize {
        return false;
    }
    let per_step = base_mob.ticks_between_trips as u128 + base_mob.respawn_rate as u128 + 1;
    proof {
        assert(max_ticks * per_step <= 0x1_0000_0000 * 0x3_0000_0000_0000_0000u128) by (nonlinear_arith)
            requires max_ticks <= 0x1_0000_0000, per_step <= 0x3_0000_0000_0000_0000u128;
    }
    max_ticks as u128 * per_step <= usize::MAX as u128
}

/// Waiting time charged for `emptied` kills that each left the pool empty.
pub open spec fn waiting_for(emptied: int, respawn_rate: usize) -> int {
    emptied * respawn_rate
}

/// Runs one trial of at most `max_ticks` steps, stepping as `step_spec`
/// says with the draws that the generator hands out. Its outcome is
/// `trial_spec` of some draws, one per step of the budget.
#[verifier::rlimit(100)]
pub fn search_talisman(
    base_mob: &RollsGemtable,
    context: &GameContext,
    max_ticks: usize,
    rng: &mut rand::rngs::StdRng,
) -> (r: TrialOutcome)
    requires
        trial_ready(*base_mob, *context, max_ticks),
    ensures
        possible_outcome(*base_mob, *context, max_ticks, r),
        max_ticks == 0 || base_mob.available_npcs == 0 ==> r is OutOfTime,
        !(context.is_members && context.player.coords.z <= CHAOS_REGION_Z) ==> !(r is Found),
        match r {
            TrialOutcome::Found(report) => {
                &&& report_fits(report, *base_mob, max_ticks)
                &&& context.player.stats.hp_level < DANGER_MARGIN ==> report.food_eaten == 0
                    && report.ticks_between_trips == 0
                &&& exists|k: int|
                    0 <= k < report.ticks_elapsed && report.ticks_waiting_for_spawn
                        == #[trigger] waiting_for(k, base_mob.respawn_rate)
            },
            _ => true,
        },
{
    let mut player = Player::new(
        context.player.loadout,
        Inventory::default(),
        context.player.coords,
        context.player.stats,
    );
    let ghost start = player;
    let mut mob = base_mob.spawn();
    let mut state = TrialState {
        tick: 0,
        player: context.player.stats,
        mob: base_mob.stats,
        live_mobs: base_mob.available_npcs,
        spawn_on: None,
        counter: 0,
        report: TallyReport::new(FOOD_HP),
    };
    let ghost mut draws: Seq<StepDraws> = Seq::empty();
    let ghost mut emptied: int = 0;
    let ghost trip = base_mob.ticks_between_trips as int;
    let ghost respawn = base_mob.respawn_rate as int;
    let ghost pp = context.player.profile();
    let ghost mp = base_mob.profile();
    proof {
        start.lemma_with_own_hp();
        base_mob.lemma_with_own_hp();
        lemma_one_more_meal(0, trip);
        assert(0 * respawn == 0);
    }
    while state.tick < max_ticks
        invariant
            trial_ready(*base_mob, *context, max_ticks),
            state.tick <= max_ticks,
            draws.len() == state.tick,
            after(*base_mob, *context, draws) == Step::Next(state),
            start.profile() == pp,
            start.equipped(),
            pp == context.player.profile(),
            mp == base_mob.profile(),
            player == start.with_hp(player.stats.current_hp),
            start.stats == context.player.stats,
            mob == base_mob.with_hp(mob.stats.current_hp),
            state.player == (CombatStats { current_hp: state.player.current_hp, ..context.player.stats }),
            state.player.wf(),
            state.mob == (CombatStats { current_hp: state.mob.current_hp, ..base_mob.stats }),
            state.live_mobs + (if state.spawn_on is Some { 1int } else { 0int }) <= base_mob.available_npcs,
            state.counter < FOOD_PER_TRIP,
            state.counter == state.report.food_eaten % 28,
            state.report.food_eaten <= state.tick,
            state.report.food_hp == FOOD_HP,
            state.report.ticks_elapsed == 0,
            state.report.ticks_between_trips == (state.report.food_eaten / 28) * trip,
            0 <= emptied <= state.tick,
            state.report.ticks_waiting_for_spawn == waiting_for(emptied, base_mob.respawn_rate),
            context.player.stats.hp_level < DANGER_MARGIN ==> state.report.food_eaten == 0,
            trip == base_mob.ticks_between_trips,
            respawn == base_mob.respawn_rate,
        decreases max_ticks - state.tick,
    {
        let ghost pre = state;
        proof {
            lemma_budget(max_ticks as int, trip, respawn, state.tick as int);
            lemma_budget(max_ticks as int, trip, respawn, state.tick + 1);
            lemma_budget(max_ticks as int, trip, respawn, state.report.food_eaten + 1);
            lemma_budget(max_ticks as int, trip, respawn, emptied);
            lemma_budget(max_ticks as int, trip, respawn, emptied + 1);
            lemma_one_more_meal(state.report.food_eaten as int, trip);
        }
        let engaged = begin_step(base_mob, &mut state);
        let ghost b = state;
        if !engaged {
            let ghost idle = StepDraws {
                attack_hit: 0,
                attack_damage: 0,
                answer_hit: 0,
                answer_damage: 0,
                drop: 0,
                gem: 0,
                gem_next: 0,
            };
            proof {
                assert(draws.push(idle).drop_last() == draws);
                draws = draws.push(idle);
            }
            state.tick = state.tick + 1;
            continue;
        }
        let tick = state.tick;
        player.stats = state.player;
        mob.stats = state.mob;
        let ghost mob0 = mob;
        let ghost player0 = player;
        run_combat_tick(tick, 0, &player, &mut mob, rng);
        let ghost attack: (u64, u32) = if tick % pp.attack_rate == 0 {
            choose|h: u64, dm: u32|
                h < chance_of(pp, mp).1 && mob == mob0.with_hp(strike_spec(pp, mp, mob0.hp(), h, dm))
        } else {
            (0u64, 0u32)
        };
        let ghost mob1 = mob;
        proof {
            mob0.lemma_with_hp(mob.stats.current_hp);
        }
        // the opponent answers one step behind
        run_combat_tick(tick, 1, &mob, &mut player, rng);
        let ghost answer: (u64, u32) = if tick % mp.attack_rate == 1 {
            choose|h: u64, dm: u32|
                h < chance_of(mp, pp).1 && player == player0.with_hp(
                    strike_spec(mp, pp, player0.hp(), h, dm),
                )
        } else {
            (0u64, 0u32)
        };
        let mut drop_draw: u32 = 0;
        let mut gem: Option<Loot> = None;
        let ghost mut gem_draws: (u32, u32) = (0u32, 0u32);
        if mob.is_dead() && !player.is_dead() {
            drop_draw = random_u32(rng);
            if drop_rolls(drop_draw, mob.chance, mob.outof) {
                gem = random_jewel(context, rng);
                proof {
                    gem_draws = choose|g: u32, n: u32|
                        gem == jewel_outcome(
                            holds_ring(*context),
                            context.is_members,
                            context.player.coords.z,
                            g,
                            n,
                        );
                }
            }
        }
        let ghost d = StepDraws {
            attack_hit: attack.0,
            attack_damage: attack.1,
            answer_hit: answer.0,
            answer_damage: answer.1,
            drop: drop_draw,
            gem: gem_draws.0,
            gem_next: gem_draws.1,
        };
        let step = settle(base_mob, &state, player.stats.current_hp, mob.stats.current_hp, drop_draw, gem);
        proof {
            assert(draws.push(d).drop_last() == draws);
            assert(step == step_spec(*base_mob, *context, pre, d));
        }
        match step {
            Step::Next(next) => {
                proof {
                    if mob.stats.current_hp == 0 && next.live_mobs == 0 {
                        emptied = emptied + 1;
                    }
                    draws = draws.push(d);
                }
                state = next;
            },
            Step::Done(outcome) => {
                proof {
                    let done = draws.push(d);
                    let pad = Seq::new((max_ticks - tick - 1) as nat, |i: int| d);
                    lemma_done_stays(*base_mob, *context, done, pad);
                    assert((done + pad).len() == max_ticks);
                    if outcome is Found {
                        lemma_nature_talisman_needs_members_below_threshold(
                            holds_ring(*context),
                            context.is_members,
                            context.player.coords.z,
                            gem_draws.0,
                            gem_draws.1,
                        );
                    }
                }
                return outcome;
            },
        }
    }
    TrialOutcome::OutOfTime
}

/// Runs `trials` independent trials in order, all drawing from one
/// continuing pseudorandom stream.
pub fn search_talismans(
    mob: &RollsGemtable,
    context: &GameContext,
    trials: usize,
    max_ticks: usize,
    rng: &mut rand::rngs::StdRng,
) -> (r: Vec<TrialOutcome>)
    requires
        trial_ready(*mob, *context, max_ticks),
    ensures
        r@.len() == trials,
        forall|i: int| 0 <= i < r@.len() ==> possible_outcome(*mob, *context, max_ticks, #[trigger] r@[i]),
        forall|i: int|
            0 <= i < r@.len() && #[trigger] r@[i] is Found ==> report_fits(
                r@[i]->Found_0,
                *mob,
                max_ticks,
            ),
{
    let mut trial_ticks: Vec<TrialOutcome> = Vec::new();
    let mut trial: usize = 0;
    while trial < trials
        invariant
            trial_ready(*mob, *context, max_ticks),
            trial <= trials,
            trial_ticks@.len() == trial,
            forall|i: int|
                0 <= i < trial_ticks@.len() ==> possible_outcome(
                    *mob,
                    *context,
                    max_ticks,
                    #[trigger] trial_ticks@[i],
                ),
            forall|i: int|
                0 <= i < trial_ticks@.len() && #[trigger] trial_ticks@[i] is Found ==> report_fits(
                    trial_ticks@[i]->Found_0,
                    *mob,
                    max_ticks,
                ),
        decreases trials - trial,
    {
        let outcome = search_talisman(mob, context, max_ticks, rng);
        trial_ticks.push(outcome);
        trial += 1;
    }
    trial_ticks
}

/// Number of trials that found the talisman.
pub open spec fn found_count(s: Seq<TrialOutcome>) -> int
    decreases s.len(),
{
    if s.len() == 0 {
        0
    } else {
        found_count(s.drop_last()) + if s.last() is Found { 1int } else { 0int }
    }
}

/// Total time, elapsed plus banking and waiting, over the trials that found
/// the talisman.
pub open spec fn found_ticks(s: Seq<TrialOutcome>) -> int
    decreases s.len(),
{
    if s.len() == 0 {
        0
    } else {
        found_ticks(s.drop_last()) + match s.last() {
            TrialOutcome::Found(report) => report.total_ticks(),
            _ => 0int,
        }
    }
}

/// Food eaten over the trials that found the talisman.
pub open spec fn found_food(s: Seq<TrialOutcome>) -> int
    decreases s.len(),
{
    if s.len() == 0 {
        0
    } else {
        found_food(s.drop_last()) + match s.last() {
            TrialOutcome::Found(report) => report.food_eaten as int,
            _ => 0int,
        }
    }
}

/// Sums over the successful trials; failed trials count in none of them.
#[derive(Clone, Copy, Debug, PartialEq, Eq, Structural)]
pub struct SearchSummary {
    pub trials: usize,
    pub successes: usize,
    pub total_ticks: u128,
    pub total_food: u128,
}

/// Every successful trial's time fits in a `usize`.
pub open spec fn reports_fit(s: Seq<TrialOutcome>) -> bool {
    forall|i: int| 0 <= i < s.len() && #[trigger] s[i] is Found ==> s[i]->Found_0.total_ticks() <= usize::MAX
}

/// Sums time and food over the successful trials; the mean of each is the
/// sum divided by `successes`.
pub fn summarize_search(trial_ticks: &Vec<TrialOutcome>) -> (r: SearchSummary)
    requires
        reports_fit(trial_ticks@),
    ensures
        r.trials == trial_ticks@.len(),
        r.successes == found_count(trial_ticks@),
        r.total_ticks == found_ticks(trial_ticks@),
        r.total_food == found_food(trial_ticks@),
{
    let mut successes: usize = 0;
    let mut total_ticks: u128 = 0;
    let mut total_food: u128 = 0;
    let mut i: usize = 0;
    while i < trial_ticks.len()
        invariant
            i <= trial_ticks@.len(),
            reports_fit(trial_ticks@),
            successes == found_count(trial_ticks@.take(i as int)),
            total_ticks == found_ticks(trial_ticks@.take(i as int)),
            total_food == found_food(trial_ticks@.take(i as int)),
            successes <= i,
            total_ticks <= i * 0xFFFF_FFFF_FFFF_FFFFu128,
            total_food <= i * 0xFFFF_FFFFu128,
        decreases trial_ticks@.len() - i,
    {
        assert(trial_ticks@.take(i + 1).drop_last() == trial_ticks@.take(i as int));
        match &trial_ticks[i] {
            TrialOutcome::Found(report) => {
                assert(trial_ticks@[i as int] is Found);
                successes += 1;
                total_ticks += report.to_ticks() as u128;
                total_food += report.food_eaten as u128;
            },
            _ => {},
        }
        i += 1;
    }
    assert(trial_ticks@.take(i as int) == trial_ticks@);
    SearchSummary { trials: trial_ticks.len(), successes, total_ticks, total_food }
}

} // verus!
