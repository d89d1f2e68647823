//! Combat stats, the capability every combatant exposes, and the per-step
//! hit and damage formula.

use vstd::prelude::*;
use crate::draws::{random_below, random_u32};

verus! {

/// Levels and hit points of one combatant.
#[derive(Clone, Copy, Debug, PartialEq, Eq, Structural)]
pub struct CombatStats {
    pub str_level: u32,
    pub def_level: u32,
    pub att_level: u32,
    pub hp_level: u32,
    pub current_hp: u32,
}

impl CombatStats {
    /// Hit points never exceed the hit-point level.
    pub open spec fn wf(self) -> bool {
        self.current_hp <= self.hp_level
    }

    pub open spec fn after_deduct(self, amount: u32) -> CombatStats {
        CombatStats {
            current_hp: if amount > self.current_hp { 0 } else { (self.current_hp - amount) as u32 },
            ..self
        }
    }

    pub open spec fn after_heal(self, amount: u32) -> CombatStats {
        CombatStats {
            current_hp: if self.current_hp + amount > self.hp_level {
                self.hp_level
            } else {
                (self.current_hp + amount) as u32
            },
            ..self
        }
    }

    pub fn die(&mut self)
        ensures
            *final(self) == (CombatStats { current_hp: 0, ..*old(self) }),
    {
        self.current_hp = 0;
    }

    /// Removes `amount` hit points, stopping at zero.
    pub fn deduct_hp(&mut self, amount: u32)
        ensures
            *final(self) == old(self).after_deduct(amount),
            amount <= old(self).current_hp ==> final(self).current_hp == old(self).current_hp - amount,
            amount > old(self).current_hp ==> final(self).current_hp == 0,
            old(self).wf() ==> final(self).wf(),
    {
        if amount > self.current_hp {
            self.die()
        } else {
            self.current_hp -= amount;
        }
    }

    /// Restores `amount` hit points, never past the hit-point level.
    pub fn heal_hp(&mut self, amount: u32)
        ensures
            *final(self) == old(self).after_heal(amount),
            old(self).wf() ==> final(self).current_hp == vstd::math::min(
                old(self).current_hp + amount,
                old(self).hp_level as int,
            ),
            final(self).wf(),
    {
        if self.current_hp as u64 + amount as u64 > self.hp_level as u64 {
            self.current_hp = self.hp_level;
        } else {
            self.current_hp += amount;
        }
    }

    pub fn is_dead(&self) -> (r: bool)
        ensures
            r == (self.current_hp == 0),
    {
        self.current_hp == 0
    }
}

/// What the hit formula reads of a combatant besides its hit points.
#[derive(Clone, Copy, Debug)]
pub struct Profile {
    pub str_level: u32,
    pub att_level: u32,
    pub def_level: u32,
    /// Steps between two attacks.
    pub attack_rate: usize,
    pub accuracy: u32,
    pub strength: u32,
    pub style_defense: u32,
    /// An automated opponent rather than the controlled player.
    pub npc: bool,
}

impl Profile {
    /// The cadence is positive and every product of the formula fits in a `u32`.
    pub open spec fn in_range(self) -> bool {
        &&& self.attack_rate > 0
        &&& (self.str_level + 11) * (self.strength + 64) + 320 <= u32::MAX
        &&& (self.att_level + 9) * (self.accuracy + 64) <= u32::MAX
        &&& (self.def_level + 9) * (self.style_defense + 64) <= u32::MAX
    }
}

/// Whether `(level + shift) * (bonus + 64) + extra` fits in a `u32`.
fn product_fits(level: u32, shift: u32, bonus: u32, extra: u32) -> (r: bool)
    requires
        shift <= 11,
        extra <= 320,
    ensures
        r == ((level + shift) * (bonus + 64) + extra <= u32::MAX),
{
    let x = level as u128 + shift as u128;
    let y = bonus as u128 + 64;
    proof {
        assert(x * y <= 0x4_0000_0000_0000_0000) by (nonlinear_arith)
            requires x <= 0x2_0000_0000, y <= 0x2_0000_0000;
    }
    x * y + extra as u128 <= u32::MAX as u128
}

impl Profile {
    /// Whether the cadence is positive and the formula's products fit.
    pub fn fits(&self) -> (r: bool)
        ensures
            r == self.in_range(),
    {
        self.attack_rate > 0 && product_fits(self.str_level, 11, self.strength, 320)
            && product_fits(self.att_level, 9, self.accuracy, 0)
            && product_fits(self.def_level, 9, self.style_defense, 0)
    }
}

pub open spec fn max_hit_spec(str_level: int, strength: int, npc: bool) -> int {
    ((str_level + (if npc { 1int } else { 3int }) + 8) * (strength + 64) + 320) / 640
}

pub open spec fn attack_roll_spec(att_level: int, accuracy: int, defender_npc: bool) -> int {
    (att_level + (if defender_npc { 1int } else { 0int }) + 8) * (accuracy + 64)
}

pub open spec fn defence_roll_spec(def_level: int, style_defense: int, npc: bool) -> int {
    (def_level + (if npc { 9int } else { 8int })) * (style_defense + 64)
}

/// `1 - (d + 2) / (2 (a + 1))` as a numerator over the denominator `2 (a + 1)`.
pub open spec fn above_branch(a: int, d: int) -> (int, int) {
    (2 * (a + 1) - (d + 2), 2 * (a + 1))
}

/// `a / (2 (d + 1))` as a numerator and a denominator.
pub open spec fn below_branch(a: int, d: int) -> (int, int) {
    (a, 2 * (d + 1))
}

/// The chance that an attack roll `a` beats a defence roll `d`, as a fraction.
pub open spec fn hit_chance_spec(a: int, d: int) -> (int, int) {
    if a > d {
        above_branch(a, d)
    } else {
        below_branch(a, d)
    }
}

/// The hit chance is a probability for all non-negative rolls, and where the
/// rolls are equal the two branches of the formula give the same fraction.
pub proof fn lemma_hit_chance_is_probability(a: int, d: int)
    requires
        a >= 0,
        d >= 0,
    ensures
        hit_chance_spec(a, d).1 > 0,
        0 <= hit_chance_spec(a, d).0 <= hit_chance_spec(a, d).1,
        a == d ==> above_branch(a, d) == below_branch(a, d),
{
}

/// Damage of a landed hit for a raw draw: `1 ..= max_hit`, or nothing when
/// the maximum is zero.
pub open spec fn damage_spec(draw: u32, max_hit: u32) -> u32 {
    if max_hit == 0 {
        0
    } else {
        (draw % max_hit + 1) as u32
    }
}

pub open spec fn max_hit_of(p: Profile) -> int {
    max_hit_spec(p.str_level as int, p.strength as int, p.npc)
}

pub open spec fn chance_of(attacker: Profile, defender: Profile) -> (int, int) {
    hit_chance_spec(
        attack_roll_spec(attacker.att_level as int, attacker.accuracy as int, defender.npc),
        defence_roll_spec(defender.def_level as int, defender.style_defense as int, defender.npc),
    )
}

/// Defender's hit points after one attack, for a hit draw below the chance's
/// denominator and a damage draw.
pub open spec fn strike_spec(
    attacker: Profile,
    defender: Profile,
    hp: u32,
    hit_draw: u64,
    damage_draw: u32,
) -> u32 {
    if hit_draw < chance_of(attacker, defender).0 {
        let amount = damage_spec(damage_draw, max_hit_of(attacker) as u32);
        if amount > hp { 0 } else { (hp - amount) as u32 }
    } else {
        hp
    }
}

/// Both factors of a product of positive numbers are at most the product.
proof fn lemma_factors_below(x: int, y: int)
    requires
        x >= 1,
        y >= 1,
    ensures
        x <= x * y,
        y <= x * y,
{
    assert(x <= x * y) by (nonlinear_arith)
        requires x >= 1, y >= 1;
    assert(y <= x * y) by (nonlinear_arith)
        requires x >= 1, y >= 1;
}

/// Largest damage of one hit.
pub fn max_hit(str_level: u32, strength: u32, npc: bool) -> (r: u32)
    requires
        (str_level + 11) * (strength + 64) + 320 <= u32::MAX,
    ensures
        r == max_hit_spec(str_level as int, strength as int, npc),
{
    proof {
        lemma_factors_below(str_level + 11, strength + 64);
    }
    let mut eff_str = str_level;
    eff_str += if npc { 1 } else { 3 };
    eff_str += 8;
    proof {
        assert((eff_str as int) * (strength + 64) <= (str_level + 11) * (strength + 64))
            by (nonlinear_arith)
            requires eff_str <= str_level + 11;
    }
    let mut hit = eff_str * (strength + 64);
    hit += 320;
    hit / 640
}

pub fn attack_roll(att_level: u32, accuracy: u32, defender_npc: bool) -> (r: u32)
    requires
        (att_level + 9) * (accuracy + 64) <= u32::MAX,
    ensures
        r == attack_roll_spec(att_level as int, accuracy as int, defender_npc),
{
    proof {
        lemma_factors_below(att_level + 9, accuracy + 64);
    }
    let mut eff_att = att_level;
    eff_att += if defender_npc { 1 } else { 0 };
    eff_att += 8;
    proof {
        assert((eff_att as int) * (accuracy + 64) <= (att_level + 9) * (accuracy + 64))
            by (nonlinear_arith)
            requires eff_att <= att_level + 9;
    }
    eff_att * (accuracy + 64)
}

pub fn defence_roll(def_level: u32, style_defense: u32, npc: bool) -> (r: u32)
    requires
        (def_level + 9) * (style_defense + 64) <= u32::MAX,
    ensures
        r == defence_roll_spec(def_level as int, style_defense as int, npc),
{
    proof {
        lemma_factors_below(def_level + 9, style_defense + 64);
    }
    let eff_def = if npc { def_level + 9 } else { def_level + 8 };
    proof {
        assert((eff_def as int) * (style_defense + 64) <= (def_level + 9) * (style_defense + 64))
            by (nonlinear_arith)
            requires eff_def <= def_level + 9;
    }
    eff_def * (style_defense + 64)
}

/// The hit chance as `(numerator, denominator)`.
pub fn hit_chance(att_roll: u32, def_roll: u32) -> (r: (u64, u64))
    ensures
        r.0 == hit_chance_spec(att_roll as int, def_roll as int).0,
        r.1 == hit_chance_spec(att_roll as int, def_roll as int).1,
        0 < r.1,
        r.0 <= r.1,
{
    let a = att_roll as u64;
    let d = def_roll as u64;
    if a > d {
        (2 * (a + 1) - (d + 2), 2 * (a + 1))
    } else {
        (a, 2 * (d + 1))
    }
}

pub fn damage(draw: u32, max_hit: u32) -> (r: u32)
    ensures
        r == damage_spec(draw, max_hit),
        max_hit == 0 ==> r == 0,
        max_hit > 0 ==> 1 <= r <= max_hit,
{
    if max_hit == 0 {
        0
    } else {
        draw % max_hit + 1
    }
}

/// A maximum hit of zero removes nothing on a landed hit, so such an attacker
/// still spends its steps and the defender keeps its hit points.
pub proof fn lemma_zero_max_hit_deals_nothing(
    attacker: Profile,
    defender: Profile,
    hp: u32,
    hit_draw: u64,
    damage_draw: u32,
)
    requires
        max_hit_of(attacker) == 0,
    ensures
        strike_spec(attacker, defender, hp, hit_draw, damage_draw) == hp,
{
}

/// With non-negative levels and bonuses the formula's maximum hit is at
/// least one.
pub proof fn lemma_max_hit_positive(str_level: nat, strength: nat, npc: bool)
    ensures
        max_hit_spec(str_level as int, strength as int, npc) >= 1,
{
    let eff = str_level + (if npc { 1int } else { 3int }) + 8;
    assert(eff * (strength + 64) >= 9 * 64) by (nonlinear_arith)
        requires eff >= 9, strength >= 0;
}

/// What every combatant exposes to the hit formula.
pub trait HasCombatStats: Sized {
    /// Levels, bonuses, cadence and kind as the formula reads them.
    spec fn profile(&self) -> Profile;

    /// Current hit points.
    spec fn hp(&self) -> u32;

    /// The same combatant with `hp` hit points.
    spec fn with_hp(&self, hp: u32) -> Self;

    /// Whether the combatant's equipment bonuses are defined.
    spec fn equipped(&self) -> bool;

    /// Setting the hit points to what they are changes nothing.
    proof fn lemma_with_own_hp(&self)
        ensures
            self.with_hp(self.hp()) == *self,
    ;

    /// Setting the hit points changes them and nothing the formula reads.
    proof fn lemma_with_hp(&self, hp: u32)
        ensures
            self.with_hp(hp).hp() == hp,
            self.with_hp(hp).profile() == self.profile(),
            self.with_hp(hp).equipped() == self.equipped(),
    ;

    /// Everything the formula reads, at once.
    fn combat_profile(&self) -> (r: Profile)
        requires
            self.equipped(),
        ensures
            r == self.profile(),
    ;

    fn current_hp(&self) -> (r: u32)
        ensures
            r == self.hp(),
    ;

    fn str_level(&self) -> (r: u32)
        ensures
            r == self.profile().str_level,
    ;

    fn is_dead(&self) -> (r: bool)
        ensures
            r == (self.hp() == 0),
    ;

    fn equipment_accuracy(&self) -> (r: u32)
        requires
            self.equipped(),
        ensures
            r == self.profile().accuracy,
    ;

    fn def_level(&self) -> (r: u32)
        ensures
            r == self.profile().def_level,
    ;

    fn att_level(&self) -> (r: u32)
        ensures
            r == self.profile().att_level,
    ;

    fn attack_rate(&self) -> (r: usize)
        requires
            self.equipped(),
        ensures
            r == self.profile().attack_rate,
    ;

    fn equipment_strength(&self) -> (r: u32)
        requires
            self.equipped(),
        ensures
            r == self.profile().strength,
    ;

    fn style_defense(&self) -> (r: u32)
        requires
            self.equipped(),
        ensures
            r == self.profile().style_defense,
    ;

    /// Removes `amount` hit points, stopping at zero; nothing else changes.
    fn deduct_hp(&mut self, amount: u32)
        ensures
            *final(self) == old(self).with_hp(
                if amount > old(self).hp() { 0 } else { (old(self).hp() - amount) as u32 },
            ),
    ;

    fn is_npc(&self) -> (r: bool)
        ensures
            r == self.profile().npc,
    ;

    fn is_player(&self) -> (r: bool)
        ensures
            r == !self.profile().npc,
    ;
}

/// One attack opportunity at step `tick`. The attacker strikes only when
/// `tick % attack_rate == start_tick`; then a hit is drawn against the hit
/// chance and, on a hit, damage in `1 ..= max_hit` (none when the maximum is
/// zero). Only the defender's hit points change.
/// The hit chance of `attacker` against `defender`, as `(numerator, denominator)`.
pub fn chance_between(attacker: &Profile, defender: &Profile) -> (r: (u64, u64))
    requires
        attacker.in_range(),
        defender.in_range(),
    ensures
        r.0 == chance_of(*attacker, *defender).0,
        r.1 == chance_of(*attacker, *defender).1,
        0 < r.1,
{
    let att_roll = attack_roll(attacker.att_level, attacker.accuracy, defender.npc);
    let def_roll = defence_roll(defender.def_level, defender.style_defense, defender.npc);
    hit_chance(att_roll, def_roll)
}

/// Whether a hit draw (below the chance's denominator) lands.
pub fn lands(attacker: &Profile, defender: &Profile, hit_draw: u64) -> (r: bool)
    requires
        attacker.in_range(),
        defender.in_range(),
    ensures
        r == (hit_draw < chance_of(*attacker, *defender).0),
{
    hit_draw < chance_between(attacker, defender).0
}

/// Hit points left after a landed hit with damage draw `damage_draw`:
/// `1 ..= max_hit` is removed, stopping at zero (nothing for a zero maximum).
pub fn wound(attacker: &Profile, hp: u32, damage_draw: u32) -> (r: u32)
    requires
        attacker.in_range(),
    ensures
        r == ({
            let amount = damage_spec(damage_draw, max_hit_of(*attacker) as u32);
            if amount > hp { 0 } else { (hp - amount) as u32 }
        }),
{
    let top = max_hit(attacker.str_level, attacker.strength, attacker.npc);
    let amount = damage(damage_draw, top);
    if amount > hp { 0 } else { hp - amount }
}

pub fn run_combat_tick<A: HasCombatStats, B: HasCombatStats>(
    tick: usize,
    start_tick: usize,
    attacker: &A,
    defender: &mut B,
    rng: &mut rand::rngs::StdRng,
)
    requires
        attacker.equipped(),
        old(defender).equipped(),
        attacker.profile().in_range(),
        old(defender).profile().in_range(),
    ensures
        tick % attacker.profile().attack_rate != start_tick ==> *final(defender) == *old(defender)
            && *final(rng) == *old(rng),
        tick % attacker.profile().attack_rate == start_tick ==> exists|hit_draw: u64, damage_draw: u32|
            hit_draw < chance_of(attacker.profile(), old(defender).profile()).1
                && *final(defender) == old(defender).with_hp(
                strike_spec(
                    attacker.profile(),
                    old(defender).profile(),
                    old(defender).hp(),
                    hit_draw,
                    damage_draw,
                ),
            ),
{
    if tick % attacker.attack_rate() == start_tick {
        let a = attacker.combat_profile();
        let d = defender.combat_profile();
        let chance = chance_between(&a, &d);
        let hit_draw = random_below(rng, chance.1);
        let ghost pre = *defender;
        if lands(&a, &d, hit_draw) {
            let damage_draw = random_u32(rng);
            let hp = defender.current_hp();
            let left = wound(&a, hp, damage_draw);
            defender.deduct_hp(hp - left);
            assert(*defender == pre.with_hp(
                strike_spec(attacker.profile(), pre.profile(), pre.hp(), hit_draw, damage_draw),
            ));
        } else {
            proof {
                defender.lemma_with_own_hp();
            }
            assert(*defender == pre.with_hp(
                strike_spec(attacker.profile(), pre.profile(), pre.hp(), hit_draw, 0),
            ));
        }
    }
}

} // verus!
