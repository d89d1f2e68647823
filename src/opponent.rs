//! Opponent archetypes: the template every opponent instance is spawned from.

use vstd::prelude::*;
use crate::combat::{CombatStats, HasCombatStats, Profile};

verus! {

/// An opponent kind that can roll the gem table, with its drop chance, pool
/// size and timings.
#[derive(Debug)]
pub struct RollsGemtable {
    pub name: String,
    /// Kills out of `outof` that roll the gem table.
    pub chance: u32,
    pub outof: u32,
    pub stats: CombatStats,
    /// Steps a banking trip costs.
    pub ticks_between_trips: usize,
    /// Instances alive at once.
    pub available_npcs: u32,
    /// Steps between two attacks.
    pub attack_rate: usize,
    pub strength: u32,
    /// Accuracy with its chosen combat style.
    pub accuracy: u32,
    /// Defence against the player's attack style.
    pub style_defense: u32,
    /// Steps between a death and the respawn.
    pub respawn_rate: usize,
}

/// Why an archetype cannot be simulated.
#[derive(Clone, Copy, Debug, PartialEq, Eq, Structural)]
pub enum ArchetypeError {
    /// The attack cadence is zero.
    ZeroAttackRate,
    /// The drop chance's denominator is zero.
    ZeroDropDenominator,
    /// The drop chance's numerator exceeds its denominator.
    ChanceAboveDenominator,
    /// Current hit points exceed the hit-point level.
    HealthAboveLevel,
    /// Levels and bonuses so large that the hit formula overflows.
    StatsOutOfRange,
}

impl RollsGemtable {
    /// Valid archetype data: the checks of `check`, in its order.
    pub open spec fn wf(&self) -> bool {
        &&& self.attack_rate > 0
        &&& self.outof > 0
        &&& self.chance <= self.outof
        &&& self.stats.wf()
        &&& self.profile().in_range()
    }

    pub open spec fn check_spec(&self) -> Result<(), ArchetypeError> {
        if self.attack_rate == 0 {
            Err(ArchetypeError::ZeroAttackRate)
        } else if self.outof == 0 {
            Err(ArchetypeError::ZeroDropDenominator)
        } else if self.chance > self.outof {
            Err(ArchetypeError::ChanceAboveDenominator)
        } else if !self.stats.wf() {
            Err(ArchetypeError::HealthAboveLevel)
        } else if !self.profile().in_range() {
            Err(ArchetypeError::StatsOutOfRange)
        } else {
            Ok(())
        }
    }

    /// Validates the archetype before any trial runs.
    pub fn check(&self) -> (r: Result<(), ArchetypeError>)
        ensures
            r == self.check_spec(),
            r is Ok <==> self.wf(),
    {
        if self.attack_rate == 0 {
            return Err(ArchetypeError::ZeroAttackRate);
        }
        if self.outof == 0 {
            return Err(ArchetypeError::ZeroDropDenominator);
        }
        if self.chance > self.outof {
            return Err(ArchetypeError::ChanceAboveDenominator);
        }
        if self.stats.current_hp > self.stats.hp_level {
            return Err(ArchetypeError::HealthAboveLevel);
        }
        if !self.combat_profile().fits() {
            return Err(ArchetypeError::StatsOutOfRange);
        }
        Ok(())
    }

    /// A fresh instance, at the template's hit points.
    pub fn spawn(&self) -> (r: RollsGemtable)
        ensures
            r == *self,
    {
        RollsGemtable {
            name: self.name.clone(),
            chance: self.chance,
            outof: self.outof,
            stats: self.stats,
            ticks_between_trips: self.ticks_between_trips,
            available_npcs: self.available_npcs,
            attack_rate: self.attack_rate,
            strength: self.strength,
            accuracy: self.accuracy,
            style_defense: self.style_defense,
            respawn_rate: self.respawn_rate,
        }
    }
}

impl HasCombatStats for RollsGemtable {
    open spec fn profile(&self) -> Profile {
        Profile {
            str_level: self.stats.str_level,
            att_level: self.stats.att_level,
            def_level: self.stats.def_level,
            attack_rate: self.attack_rate,
            accuracy: self.accuracy,
            strength: self.strength,
            style_defense: self.style_defense,
            npc: true,
        }
    }

    open spec fn hp(&self) -> u32 {
        self.stats.current_hp
    }

    open spec fn with_hp(&self, hp: u32) -> RollsGemtable {
        RollsGemtable { stats: CombatStats { current_hp: hp, ..self.stats }, ..*self }
    }

    open spec fn equipped(&self) -> bool {
        true
    }

    proof fn lemma_with_own_hp(&self) {
    }

    proof fn lemma_with_hp(&self, hp: u32) {
    }

    /// What the hit formula reads of this archetype.
    fn combat_profile(&self) -> (r: Profile) {
        Profile {
            str_level: self.stats.str_level,
            att_level: self.stats.att_level,
            def_level: self.stats.def_level,
            attack_rate: self.attack_rate,
            accuracy: self.accuracy,
            strength: self.strength,
            style_defense: self.style_defense,
            npc: true,
        }
    }

    fn current_hp(&self) -> (r: u32) {
        self.stats.current_hp
    }

    fn is_npc(&self) -> (r: bool) {
        true
    }

    fn str_level(&self) -> (r: u32) {
        self.stats.str_level
    }

    fn att_level(&self) -> (r: u32) {
        self.stats.att_level
    }

    fn def_level(&self) -> (r: u32) {
        self.stats.def_level
    }

    fn deduct_hp(&mut self, amount: u32) {
        self.stats.deduct_hp(amount)
    }

    fn attack_rate(&self) -> (r: usize) {
        self.attack_rate
    }

    fn equipment_accuracy(&self) -> (r: u32) {
        self.accuracy
    }

    fn equipment_strength(&self) -> (r: u32) {
        self.strength
    }

    fn is_dead(&self) -> (r: bool) {
        self.stats.is_dead()
    }

    fn is_player(&self) -> (r: bool) {
        false
    }

    fn style_defense(&self) -> (r: u32) {
        self.style_defense
    }
}

} // verus!
