//! The controlled player: position, loadout, inventory and combat stats.

use vstd::prelude::*;
use crate::combat::{CombatStats, HasCombatStats, Profile};
use crate::inventory::Inventory;

verus! {

#[derive(Clone, Copy, Debug)]
pub struct PlayerCoords {
    /// East/west.
    pub x: i32,
    /// Vertical; dungeons lie far up.
    pub y: i32,
    /// North/south.
    pub z: i32,
}

impl PlayerCoords {
    pub fn new(x: i32, y: i32, z: i32) -> (r: PlayerCoords)
        ensures
            r == (PlayerCoords { x, y, z }),
    {
        PlayerCoords { x, y, z }
    }

    pub fn coordz(&self) -> (r: i32)
        ensures
            r == self.z,
    {
        self.z
    }
}

#[derive(Clone, Copy, Debug)]
pub enum MeleeStyle {
    Accurate,
    Aggressive,
    Controlled,
    Defensive,
}

#[derive(Clone, Copy, Debug)]
pub struct MeleeDps {
    pub str_bonus: u32,
    pub style: MeleeStyle,
    pub accuracy: u32,
    /// Steps per attack.
    pub rate: usize,
    /// Defence bonus against the style the opponent attacks with.
    pub def_bonus: u32,
}

#[derive(Clone, Copy, Debug)]
pub enum RangedStyle {
    Accurate,
    Rapid,
    Longrange,
}

#[derive(Clone, Copy, Debug)]
pub struct RangedDps {
    pub ammo_str: u32,
    pub accuracy: u32,
    pub style: RangedStyle,
    pub rate: u32,
}

#[derive(Clone, Copy, Debug)]
pub struct MagicDps {}

/// Combat style and equipment; only melee is simulated.
#[derive(Clone, Copy, Debug)]
pub enum Loadout {
    Melee(MeleeDps),
    Ranged(RangedDps),
    Magic(MagicDps),
}

#[derive(Clone, Debug)]
pub struct Player {
    pub loadout: Loadout,
    pub inventory: Inventory,
    pub coords: PlayerCoords,
    pub stats: CombatStats,
}

impl Player {
    pub fn new(loadout: Loadout, inventory: Inventory, coords: PlayerCoords, stats: CombatStats) -> (r: Player)
        ensures
            r == (Player { loadout, inventory, coords, stats }),
    {
        Player { loadout, inventory, coords, stats }
    }
}

impl Player {
    /// What the hit formula reads of a melee player.
    pub fn melee_profile(&self) -> (r: Option<Profile>)
        ensures
            r == if self.equipped() { Some(self.profile()) } else { None },
    {
        match &self.loadout {
            Loadout::Melee(m) => Some(
                Profile {
                    str_level: self.stats.str_level,
                    att_level: self.stats.att_level,
                    def_level: self.stats.def_level,
                    attack_rate: m.rate,
                    accuracy: m.accuracy,
                    strength: m.str_bonus,
                    style_defense: m.def_bonus,
                    npc: false,
                },
            ),
            _ => None,
        }
    }
}

impl HasCombatStats for Player {
    open spec fn profile(&self) -> Profile {
        match self.loadout {
            Loadout::Melee(m) => Profile {
                str_level: self.stats.str_level,
                att_level: self.stats.att_level,
                def_level: self.stats.def_level,
                attack_rate: m.rate,
                accuracy: m.accuracy,
                strength: m.str_bonus,
                style_defense: m.def_bonus,
                npc: false,
            },
            _ => Profile {
                str_level: self.stats.str_level,
                att_level: self.stats.att_level,
                def_level: self.stats.def_level,
                attack_rate: 0,
                accuracy: 0,
                strength: 0,
                style_defense: 0,
                npc: false,
            },
        }
    }

    open spec fn hp(&self) -> u32 {
        self.stats.current_hp
    }

    open spec fn with_hp(&self, hp: u32) -> Player {
        Player { stats: CombatStats { current_hp: hp, ..self.stats }, ..*self }
    }

    open spec fn equipped(&self) -> bool {
        self.loadout is Melee
    }

    proof fn lemma_with_own_hp(&self) {
    }

    proof fn lemma_with_hp(&self, hp: u32) {
    }

    fn combat_profile(&self) -> (r: Profile) {
        Profile {
            str_level: self.stats.str_level,
            att_level: self.stats.att_level,
            def_level: self.stats.def_level,
            attack_rate: self.attack_rate(),
            accuracy: self.equipment_accuracy(),
            strength: self.equipment_strength(),
            style_defense: self.style_defense(),
            npc: false,
        }
    }

    fn current_hp(&self) -> (r: u32) {
        self.stats.current_hp
    }

    fn is_dead(&self) -> (r: bool) {
        self.stats.is_dead()
    }

    fn str_level(&self) -> (r: u32) {
        self.stats.str_level
    }

    fn att_level(&self) -> (r: u32) {
        self.stats.att_level
    }

    fn def_level(&self) -> (r: u32) {
        self.stats.def_level
    }

    fn deduct_hp(&mut self, amount: u32) {
        self.stats.deduct_hp(amount)
    }

    fn is_npc(&self) -> (r: bool) {
        false
    }

    fn is_player(&self) -> (r: bool) {
        true
    }

    fn attack_rate(&self) -> (r: usize) {
        match &self.loadout {
            Loadout::Melee(melee) => melee.rate,
            // not reached: callers hold `equipped()`
            _ => 0,
        }
    }

    fn equipment_accuracy(&self) -> (r: u32) {
        match &self.loadout {
            Loadout::Melee(melee) => melee.accuracy,
            // not reached: callers hold `equipped()`
            _ => 0,
        }
    }

    fn equipment_strength(&self) -> (r: u32) {
        match &self.loadout {
            Loadout::Melee(melee) => melee.str_bonus,
            // not reached: callers hold `equipped()`
            _ => 0,
        }
    }

    fn style_defense(&self) -> (r: u32) {
        match &self.loadout {
            Loadout::Melee(melee) => melee.def_bonus,
            // not reached: callers hold `equipped()`
            _ => 0,
        }
    }
}

/// What the loot tables read besides the draw.
#[derive(Clone, Debug)]
pub struct GameContext {
    pub is_members: bool,
    pub player: Player,
}

impl GameContext {
    pub fn coordz(&self) -> (r: i32)
        ensures
            r == self.player.coords.z,
    {
        self.player.coords.coordz()
    }

    pub fn new(is_members: bool, player: Player) -> (r: GameContext)
        ensures
            r == (GameContext { is_members, player }),
    {
        GameContext { is_members, player }
    }
}

} // verus!
