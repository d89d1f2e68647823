//! The nested loot tables. Each table is an ascending list of bounds over a
//! modulus: a draw reduced by the modulus falls in at most one band
//! `bounds[i] .. bounds[i + 1]`, and each band names what it gives. A draw in
//! no band gives nothing.

use vstd::prelude::*;
use crate::draws::random_u32;
use crate::player::GameContext;

verus! {

#[derive(Clone, Copy, Debug, PartialEq, Eq, Structural)]
pub enum Reward {
    NatureRune,
    AdamantJavelin,
    DeathRune,
    LawRune,
    RuneArrow,
    SteelArrow,
    Rune2hSword,
    RuneBattleaxe,
    RuneSqShield,
    DragonMedHelm,
    RuneKiteshield,
    Coins,
    HalfKey1,
    HalfKey2,
    RuniteBar,
    Dragonstone,
    CertSilverOre,
    RuneSpear,
    ShieldLeftHalf,
    DragonSpear,
    UncutSapphire,
    UncutEmerald,
    UncutRuby,
    UncutDiamond,
    RuneJavelin,
    ChaosTalisman,
    NatureTalisman,
}

pub open spec fn reward_name(r: Reward) -> Seq<char> {
    match r {
        Reward::NatureRune => "naturerune"@,
        Reward::AdamantJavelin => "adamant_javelin"@,
        Reward::DeathRune => "deathrune"@,
        Reward::LawRune => "lawrune"@,
        Reward::RuneArrow => "rune_arrow"@,
        Reward::SteelArrow => "steel_arrow"@,
        Reward::Rune2hSword => "rune_2h_sword"@,
        Reward::RuneBattleaxe => "rune_battleaxe"@,
        Reward::RuneSqShield => "rune_sq_shield"@,
        Reward::DragonMedHelm => "dragon_med_helm"@,
        Reward::RuneKiteshield => "rune_kiteshield"@,
        Reward::Coins => "coins"@,
        Reward::HalfKey1 => "half_key1"@,
        Reward::HalfKey2 => "half_key2"@,
        Reward::RuniteBar => "runite_bar"@,
        Reward::Dragonstone => "dragonstone"@,
        Reward::CertSilverOre => "cert_silver_ore"@,
        Reward::RuneSpear => "rune_spear"@,
        Reward::ShieldLeftHalf => "shield_left_half"@,
        Reward::DragonSpear => "dragon_spear"@,
        Reward::UncutSapphire => "uncut_sapphire"@,
        Reward::UncutEmerald => "uncut_emerald"@,
        Reward::UncutRuby => "uncut_ruby"@,
        Reward::UncutDiamond => "uncut_diamond"@,
        Reward::RuneJavelin => "rune_javelin"@,
        Reward::ChaosTalisman => "chaos_talisman"@,
        Reward::NatureTalisman => "nature_talisman"@,
    }
}

impl Reward {
    /// The item name under which the reward is stacked and banked.
    pub fn name(&self) -> (r: &'static str)
        ensures
            r@ == reward_name(*self),
    {
        match self {
            Reward::NatureRune => "naturerune",
            Reward::AdamantJavelin => "adamant_javelin",
            Reward::DeathRune => "deathrune",
            Reward::LawRune => "lawrune",
            Reward::RuneArrow => "rune_arrow",
            Reward::SteelArrow => "steel_arrow",
            Reward::Rune2hSword => "rune_2h_sword",
            Reward::RuneBattleaxe => "rune_battleaxe",
            Reward::RuneSqShield => "rune_sq_shield",
            Reward::DragonMedHelm => "dragon_med_helm",
            Reward::RuneKiteshield => "rune_kiteshield",
            Reward::Coins => "coins",
            Reward::HalfKey1 => "half_key1",
            Reward::HalfKey2 => "half_key2",
            Reward::RuniteBar => "runite_bar",
            Reward::Dragonstone => "dragonstone",
            Reward::CertSilverOre => "cert_silver_ore",
            Reward::RuneSpear => "rune_spear",
            Reward::ShieldLeftHalf => "shield_left_half",
            Reward::DragonSpear => "dragon_spear",
            Reward::UncutSapphire => "uncut_sapphire",
            Reward::UncutEmerald => "uncut_emerald",
            Reward::UncutRuby => "uncut_ruby",
            Reward::UncutDiamond => "uncut_diamond",
            Reward::RuneJavelin => "rune_javelin",
            Reward::ChaosTalisman => "chaos_talisman",
            Reward::NatureTalisman => "nature_talisman",
        }
    }
}

/// A reward and how many of it drop.
#[derive(Clone, Copy, Debug, PartialEq, Eq, Structural)]
pub struct Loot {
    pub reward: Reward,
    pub quantity: usize,
}

pub open spec fn loot(reward: Reward, quantity: usize) -> Loot {
    Loot { reward, quantity }
}

/// Where a band of the top table leads.
#[derive(Clone, Copy, Debug, PartialEq, Eq, Structural)]
pub enum UltraPick {
    Give(Loot),
    Jewel,
    Mega,
}

/// Where a draw on the gem table leads.
#[derive(Clone, Copy, Debug, PartialEq, Eq, Structural)]
pub enum JewelPick {
    Give(Loot),
    Nothing,
    Mega,
}

// ---------------------------------------------------------------- bands

pub open spec fn ascending(b: Seq<u32>) -> bool {
    forall|i: int| 0 <= i && i + 1 < b.len() ==> #[trigger] b[i] < b[i + 1]
}

/// `c` lies in band `i` of `b`.
pub open spec fn in_band(b: Seq<u32>, i: int, c: u32) -> bool {
    0 <= i && i + 1 < b.len() && b[i] <= c && c < b[i + 1]
}

/// The band that `c` lies in, or -1.
pub open spec fn band_index(b: Seq<u32>, c: u32) -> int {
    if exists|i: int| in_band(b, i, c) {
        choose|i: int| in_band(b, i, c)
    } else {
        -1
    }
}

proof fn lemma_ascending_far(b: Seq<u32>, i: int, j: int)
    requires
        ascending(b),
        0 <= i < j < b.len(),
    ensures
        b[i] < b[j],
    decreases j - i,
{
    if j > i + 1 {
        lemma_ascending_far(b, i, j - 1);
        assert(b[j - 1] < b[j]);
    } else {
        assert(b[i] < b[i + 1]);
    }
}

/// Bands never overlap, and a value lands in some band exactly when it lies
/// between the first and the last bound.
pub proof fn lemma_bands_partition(b: Seq<u32>, c: u32)
    requires
        ascending(b),
        b.len() >= 1,
    ensures
        forall|i: int, j: int| in_band(b, i, c) && in_band(b, j, c) ==> i == j,
        (exists|i: int| in_band(b, i, c)) == (b[0] <= c < b.last()),
        (b[0] <= c < b.last()) ==> in_band(b, band_index(b, c), c),
    decreases b.len(),
{
    assert forall|i: int, j: int| in_band(b, i, c) && in_band(b, j, c) implies i == j by {
        if i < j {
            if i + 1 < j {
                lemma_ascending_far(b, i + 1, j);
            }
        } else if j < i {
            if j + 1 < i {
                lemma_ascending_far(b, j + 1, i);
            }
        }
    }
    assert forall|i: int| in_band(b, i, c) implies b[0] <= c < b.last() by {
        if i > 0 {
            lemma_ascending_far(b, 0, i);
        }
        if i + 1 < b.len() - 1 {
            lemma_ascending_far(b, i + 1, b.len() - 1);
        }
    }
    if b.len() > 1 && b[0] <= c < b.last() {
        let front = b.drop_last();
        assert(ascending(front));
        if c < front.last() {
            lemma_bands_partition(front, c);
            let i = choose|i: int| in_band(front, i, c);
            assert(in_band(b, i, c));
        } else {
            assert(in_band(b, b.len() - 2, c));
        }
    }
}

/// The bands of `b` start at zero and end within the modulus `m`, and the
/// reduced draw `c` lies in exactly one band when it is below the last bound
/// and in none (no reward) from there up to the modulus.
pub open spec fn covers_once(b: Seq<u32>, m: u32, c: u32) -> bool {
    &&& b.len() >= 1
    &&& b[0] == 0
    &&& b.last() <= m
    &&& (exists|i: int| in_band(b, i, c)) == (c < b.last())
    &&& forall|i: int, j: int| in_band(b, i, c) && in_band(b, j, c) ==> i == j
}

/// Every draw resolves to exactly one outcome on each table: one band, or
/// none past the last bound, with no two bands overlapping. The top table's
/// bands fill its whole modulus.
pub proof fn lemma_loot_draws_exhaustive(draw: u32)
    ensures
        covers_once(ultrarare_bounds(), ULTRARARE_MODULUS, draw % ULTRARARE_MODULUS),
        ultrarare_bounds().last() == ULTRARARE_MODULUS,
        covers_once(megarare_bounds(), MEGARARE_MODULUS, draw % MEGARARE_MODULUS),
        covers_once(jewel_bounds(), JEWEL_MODULUS, draw % JEWEL_MODULUS),
        covers_once(jewel_bounds(), JEWEL_RING_MODULUS, draw % JEWEL_RING_MODULUS),
{
    lemma_bands_partition(ultrarare_bounds(), draw % ULTRARARE_MODULUS);
    lemma_bands_partition(megarare_bounds(), draw % MEGARARE_MODULUS);
    lemma_bands_partition(jewel_bounds(), draw % JEWEL_MODULUS);
    lemma_bands_partition(jewel_bounds(), draw % JEWEL_RING_MODULUS);
}

/// With a ring of wealth the gem table reduces draws modulo 65 instead of
/// 128. All its bands lie below 65, so band `i` takes `width / 65` of the
/// draws instead of `width / 128`, a different share for every band, and one
/// raw draw may lead elsewhere: 100 gives nothing without the ring and an
/// uncut emerald with it.
pub proof fn lemma_ring_rescales_gem_table(i: int, members: bool, z: i32)
    requires
        0 <= i < jewel_bounds().len() - 1,
    ensures
        jewel_bounds().last() == JEWEL_RING_MODULUS,
        jewel_bounds()[i + 1] - jewel_bounds()[i] > 0,
        (jewel_bounds()[i + 1] - jewel_bounds()[i]) * JEWEL_MODULUS != (jewel_bounds()[i + 1]
            - jewel_bounds()[i]) * JEWEL_RING_MODULUS,
        jewel_spec(false, members, z, 100) == JewelPick::Nothing,
        jewel_spec(true, members, z, 100) == JewelPick::Give(loot(Reward::UncutEmerald, 1)),
{
    assert(jewel_bounds()[i] < jewel_bounds()[i + 1]);
    lemma_bands_partition(jewel_bounds(), 100);
    lemma_bands_partition(jewel_bounds(), 35);
    assert(in_band(jewel_bounds(), 1, 35));
    assert(band_index(jewel_bounds(), 35) == 1);
    assert((100u32 % JEWEL_RING_MODULUS) == 35u32);
}

proof fn lemma_band_index_is(b: Seq<u32>, i: int, c: u32)
    requires
        ascending(b),
        in_band(b, i, c),
    ensures
        band_index(b, c) == i,
{
    lemma_bands_partition(b, c);
}

/// The band of `bounds` that `choice` lies in.
pub fn band_of(bounds: &Vec<u32>, choice: u32) -> (r: Option<usize>)
    requires
        ascending(bounds@),
    ensures
        match r {
            Some(i) => in_band(bounds@, i as int, choice) && band_index(bounds@, choice) == i,
            None => band_index(bounds@, choice) == -1,
        },
{
    let mut i: usize = 0;
    while i < bounds.len()
        invariant
            ascending(bounds@),
            forall|j: int| 0 <= j < i ==> !in_band(bounds@, j, choice),
        decreases bounds@.len() - i,
    {
        if i + 1 < bounds.len() && bounds[i] <= choice && choice < bounds[i + 1] {
            proof {
                lemma_band_index_is(bounds@, i as int, choice);
            }
            return Some(i);
        }
        i += 1;
    }
    None
}

// ---------------------------------------------------------------- tables

pub const ULTRARARE_MODULUS: u32 = 128;

pub const MEGARARE_MODULUS: u32 = 128;

/// The gem table's modulus without the ring of wealth.
pub const JEWEL_MODULUS: u32 = 128;

/// The gem table's modulus while the player holds a ring of wealth.
pub const JEWEL_RING_MODULUS: u32 = 65;

/// From this vertical coordinate up, the gem table gives chaos talismans in
/// place of nature talismans.
pub const CHAOS_REGION_Z: i32 = 6400;

pub open spec fn ultrarare_bounds() -> Seq<u32> {
    seq![0u32, 3, 5, 7, 9, 11, 13, 16, 19, 21, 22, 23, 44, 64, 84, 89, 91, 93, 113, 128]
}

pub open spec fn megarare_bounds() -> Seq<u32> {
    seq![0u32, 8, 12, 15]
}

pub open spec fn jewel_bounds() -> Seq<u32> {
    seq![0u32, 32, 48, 56, 58, 59, 60, 61, 62, 65]
}

fn ultrarare_bounds_vec() -> (r: Vec<u32>)
    ensures
        r@ == ultrarare_bounds(),
{
    vec![0u32, 3, 5, 7, 9, 11, 13, 16, 19, 21, 22, 23, 44, 64, 84, 89, 91, 93, 113, 128]
}

fn megarare_bounds_vec() -> (r: Vec<u32>)
    ensures
        r@ == megarare_bounds(),
{
    vec![0u32, 8, 12, 15]
}

fn jewel_bounds_vec() -> (r: Vec<u32>)
    ensures
        r@ == jewel_bounds(),
{
    vec![0u32, 32, 48, 56, 58, 59, 60, 61, 62, 65]
}

pub open spec fn ultrarare_band(i: int) -> UltraPick {
    if i == 0 {
        UltraPick::Give(loot(Reward::NatureRune, 67))
    } else if i == 1 {
        UltraPick::Give(loot(Reward::AdamantJavelin, 20))
    } else if i == 2 {
        UltraPick::Give(loot(Reward::DeathRune, 45))
    } else if i == 3 {
        UltraPick::Give(loot(Reward::LawRune, 45))
    } else if i == 4 {
        UltraPick::Give(loot(Reward::RuneArrow, 42))
    } else if i == 5 {
        UltraPick::Give(loot(Reward::SteelArrow, 150))
    } else if i == 6 {
        UltraPick::Give(loot(Reward::Rune2hSword, 1))
    } else if i == 7 {
        UltraPick::Give(loot(Reward::RuneBattleaxe, 1))
    } else if i == 8 {
        UltraPick::Give(loot(Reward::RuneSqShield, 1))
    } else if i == 9 {
        UltraPick::Give(loot(Reward::DragonMedHelm, 1))
    } else if i == 10 {
        UltraPick::Give(loot(Reward::RuneKiteshield, 1))
    } else if i == 11 {
        UltraPick::Give(loot(Reward::Coins, 3000))
    } else if i == 12 {
        UltraPick::Give(loot(Reward::HalfKey1, 1))
    } else if i == 13 {
        UltraPick::Give(loot(Reward::HalfKey2, 1))
    } else if i == 14 {
        UltraPick::Give(loot(Reward::RuniteBar, 1))
    } else if i == 15 {
        UltraPick::Give(loot(Reward::Dragonstone, 1))
    } else if i == 16 {
        UltraPick::Give(loot(Reward::CertSilverOre, 100))
    } else if i == 17 {
        UltraPick::Jewel
    } else {
        UltraPick::Mega
    }
}

pub open spec fn megarare_band(i: int) -> Option<Loot> {
    if i == 0 {
        Some(loot(Reward::RuneSpear, 1))
    } else if i == 1 {
        Some(loot(Reward::ShieldLeftHalf, 1))
    } else if i == 2 {
        Some(loot(Reward::DragonSpear, 1))
    } else {
        None
    }
}

/// Bands 4 to 8 give something to members only; band 8 depends on the region.
pub open spec fn jewel_band(i: int, members: bool, z: i32) -> JewelPick {
    if i == 0 {
        JewelPick::Give(loot(Reward::UncutSapphire, 1))
    } else if i == 1 {
        JewelPick::Give(loot(Reward::UncutEmerald, 1))
    } else if i == 2 {
        JewelPick::Give(loot(Reward::UncutRuby, 1))
    } else if i == 3 {
        JewelPick::Give(loot(Reward::UncutDiamond, 1))
    } else if 4 <= i <= 8 && !members {
        JewelPick::Nothing
    } else if i == 4 {
        JewelPick::Give(loot(Reward::RuneJavelin, 5))
    } else if i == 5 {
        JewelPick::Give(loot(Reward::HalfKey1, 1))
    } else if i == 6 {
        JewelPick::Give(loot(Reward::HalfKey2, 1))
    } else if i == 7 {
        JewelPick::Mega
    } else if i == 8 {
        if z > CHAOS_REGION_Z {
            JewelPick::Give(loot(Reward::ChaosTalisman, 1))
        } else {
            JewelPick::Give(loot(Reward::NatureTalisman, 1))
        }
    } else {
        JewelPick::Nothing
    }
}

pub open spec fn ultrarare_spec(draw: u32) -> UltraPick {
    ultrarare_band(band_index(ultrarare_bounds(), draw % ULTRARARE_MODULUS))
}

pub open spec fn megarare_spec(draw: u32) -> Option<Loot> {
    megarare_band(band_index(megarare_bounds(), draw % MEGARARE_MODULUS))
}

pub open spec fn jewel_modulus(ring: bool) -> u32 {
    if ring {
        JEWEL_RING_MODULUS
    } else {
        JEWEL_MODULUS
    }
}

pub open spec fn jewel_spec(ring: bool, members: bool, z: i32, draw: u32) -> JewelPick {
    jewel_band(band_index(jewel_bounds(), draw % jewel_modulus(ring)), members, z)
}

/// The gem table's result for its own draw and, where it recurses, the
/// draw of the nested table.
pub open spec fn jewel_outcome(ring: bool, members: bool, z: i32, draw: u32, next: u32) -> Option<Loot> {
    match jewel_spec(ring, members, z, draw) {
        JewelPick::Give(l) => Some(l),
        JewelPick::Nothing => None,
        JewelPick::Mega => megarare_spec(next),
    }
}

/// The top table's result for its own draw and those of the nested tables.
pub open spec fn ultrarare_outcome(ring: bool, members: bool, z: i32, draw: u32, next: u32, last: u32) -> Option<Loot> {
    match ultrarare_spec(draw) {
        UltraPick::Give(l) => Some(l),
        UltraPick::Jewel => jewel_outcome(ring, members, z, next, last),
        UltraPick::Mega => megarare_spec(next),
    }
}

/// The player carries a ring of wealth.
pub open spec fn holds_ring(context: GameContext) -> bool {
    context.player.inventory.total_spec("ring_of_wealth"@) > 0
}

/// What a raw draw gives on the top table.
pub fn ultrarare_pick(draw: u32) -> (r: UltraPick)
    ensures
        r == ultrarare_spec(draw),
{
    let choice = draw % ULTRARARE_MODULUS;
    let bounds = ultrarare_bounds_vec();
    match band_of(&bounds, choice) {
        Some(0) => UltraPick::Give(Loot { reward: Reward::NatureRune, quantity: 67 }),
        Some(1) => UltraPick::Give(Loot { reward: Reward::AdamantJavelin, quantity: 20 }),
        Some(2) => UltraPick::Give(Loot { reward: Reward::DeathRune, quantity: 45 }),
        Some(3) => UltraPick::Give(Loot { reward: Reward::LawRune, quantity: 45 }),
        Some(4) => UltraPick::Give(Loot { reward: Reward::RuneArrow, quantity: 42 }),
        Some(5) => UltraPick::Give(Loot { reward: Reward::SteelArrow, quantity: 150 }),
        Some(6) => UltraPick::Give(Loot { reward: Reward::Rune2hSword, quantity: 1 }),
        Some(7) => UltraPick::Give(Loot { reward: Reward::RuneBattleaxe, quantity: 1 }),
        Some(8) => UltraPick::Give(Loot { reward: Reward::RuneSqShield, quantity: 1 }),
        Some(9) => UltraPick::Give(Loot { reward: Reward::DragonMedHelm, quantity: 1 }),
        Some(10) => UltraPick::Give(Loot { reward: Reward::RuneKiteshield, quantity: 1 }),
        Some(11) => UltraPick::Give(Loot { reward: Reward::Coins, quantity: 3000 }),
        Some(12) => UltraPick::Give(Loot { reward: Reward::HalfKey1, quantity: 1 }),
        Some(13) => UltraPick::Give(Loot { reward: Reward::HalfKey2, quantity: 1 }),
        Some(14) => UltraPick::Give(Loot { reward: Reward::RuniteBar, quantity: 1 }),
        Some(15) => UltraPick::Give(Loot { reward: Reward::Dragonstone, quantity: 1 }),
        Some(16) => UltraPick::Give(Loot { reward: Reward::CertSilverOre, quantity: 100 }),
        Some(17) => UltraPick::Jewel,
        _ => {
            proof {
                lemma_bands_partition(ultrarare_bounds(), choice);
            }
            UltraPick::Mega
        },
    }
}

/// What a raw draw gives on the nested rare table.
pub fn megarare_pick(draw: u32) -> (r: Option<Loot>)
    ensures
        r == megarare_spec(draw),
{
    let choice = draw % MEGARARE_MODULUS;
    let bounds = megarare_bounds_vec();
    match band_of(&bounds, choice) {
        Some(0) => Some(Loot { reward: Reward::RuneSpear, quantity: 1 }),
        Some(1) => Some(Loot { reward: Reward::ShieldLeftHalf, quantity: 1 }),
        Some(2) => Some(Loot { reward: Reward::DragonSpear, quantity: 1 }),
        _ => {
            proof {
                lemma_bands_partition(megarare_bounds(), choice);
            }
            None
        },
    }
}

/// What a raw draw gives on the gem table, for whether the player holds a
/// ring of wealth, is a member, and the vertical coordinate.
pub fn jewel_pick(ring: bool, members: bool, z: i32, draw: u32) -> (r: JewelPick)
    ensures
        r == jewel_spec(ring, members, z, draw),
{
    let modulus = if ring { JEWEL_RING_MODULUS } else { JEWEL_MODULUS };
    let choice = draw % modulus;
    let bounds = jewel_bounds_vec();
    match band_of(&bounds, choice) {
        Some(0) => JewelPick::Give(Loot { reward: Reward::UncutSapphire, quantity: 1 }),
        Some(1) => JewelPick::Give(Loot { reward: Reward::UncutEmerald, quantity: 1 }),
        Some(2) => JewelPick::Give(Loot { reward: Reward::UncutRuby, quantity: 1 }),
        Some(3) => JewelPick::Give(Loot { reward: Reward::UncutDiamond, quantity: 1 }),
        Some(i) => {
            if !members {
                JewelPick::Nothing
            } else if i == 4 {
                JewelPick::Give(Loot { reward: Reward::RuneJavelin, quantity: 5 })
            } else if i == 5 {
                JewelPick::Give(Loot { reward: Reward::HalfKey1, quantity: 1 })
            } else if i == 6 {
                JewelPick::Give(Loot { reward: Reward::HalfKey2, quantity: 1 })
            } else if i == 7 {
                JewelPick::Mega
            } else if z > CHAOS_REGION_Z {
                JewelPick::Give(Loot { reward: Reward::ChaosTalisman, quantity: 1 })
            } else {
                JewelPick::Give(Loot { reward: Reward::NatureTalisman, quantity: 1 })
            }
        },
        None => JewelPick::Nothing,
    }
}

/// What a raw draw gives on the gem table for this player: the ring of
/// wealth in the inventory, membership and the vertical coordinate decide.
pub fn jewel_for(context: &GameContext, draw: u32) -> (r: JewelPick)
    requires
        context.player.inventory.wf(),
    ensures
        r == jewel_spec(holds_ring(*context), context.is_members, context.player.coords.z, draw),
{
    let ring = context.player.inventory.total_of("ring_of_wealth") > 0;
    jewel_pick(ring, context.is_members, context.coordz(), draw)
}

/// Only a member below the region threshold can get a nature talisman from
/// the gem table.
pub proof fn lemma_nature_talisman_needs_members_below_threshold(
    ring: bool,
    members: bool,
    z: i32,
    draw: u32,
    next: u32,
)
    ensures
        jewel_outcome(ring, members, z, draw, next) matches Some(l) && l.reward == Reward::NatureTalisman
            ==> members && z <= CHAOS_REGION_Z,
{
}

/// Draws once on the nested rare table.
pub fn megarare_table(context: &GameContext, rng: &mut rand::rngs::StdRng) -> (r: Option<Loot>)
    ensures
        exists|draw: u32| r == megarare_spec(draw),
{
    megarare_pick(random_u32(rng))
}

/// Draws on the gem table, and on the nested rare table where it leads there.
pub fn random_jewel(context: &GameContext, rng: &mut rand::rngs::StdRng) -> (r: Option<Loot>)
    requires
        context.player.inventory.wf(),
    ensures
        exists|draw: u32, next: u32|
            r == jewel_outcome(
                holds_ring(*context),
                context.is_members,
                context.player.coords.z,
                draw,
                next,
            ),
{
    let ghost held = holds_ring(*context);
    let ghost z = context.player.coords.z;
    let draw = random_u32(rng);
    match jewel_for(context, draw) {
        JewelPick::Give(l) => {
            assert(Some(l) == jewel_outcome(held, context.is_members, z, draw, 0));
            Some(l)
        },
        JewelPick::Nothing => {
            assert(jewel_outcome(held, context.is_members, z, draw, 0) == None::<Loot>);
            None
        },
        JewelPick::Mega => {
            let r = megarare_table(context, rng);
            let ghost next = choose|next: u32| r == megarare_spec(next);
            assert(r == jewel_outcome(held, context.is_members, z, draw, next));
            r
        },
    }
}

/// Draws on the top table, and on the nested tables where it leads there.
pub fn ultrarare_table(context: &GameContext, rng: &mut rand::rngs::StdRng) -> (r: Option<Loot>)
    requires
        context.player.inventory.wf(),
    ensures
        exists|draw: u32, next: u32, last: u32|
            r == ultrarare_outcome(
                holds_ring(*context),
                context.is_members,
                context.player.coords.z,
                draw,
                next,
                last,
            ),
{
    let draw = random_u32(rng);
    let ghost ring = holds_ring(*context);
    let ghost z = context.player.coords.z;
    match ultrarare_pick(draw) {
        UltraPick::Give(l) => {
            assert(Some(l) == ultrarare_outcome(ring, context.is_members, z, draw, 0, 0));
            Some(l)
        },
        UltraPick::Jewel => {
            let r = random_jewel(context, rng);
            let ghost (next, last) = choose|next: u32, last: u32|
                r == jewel_outcome(ring, context.is_members, z, next, last);
            assert(r == ultrarare_outcome(ring, context.is_members, z, draw, next, last));
            r
        },
        UltraPick::Mega => {
            let r = megarare_table(context, rng);
            let ghost next = choose|next: u32| r == megarare_spec(next);
            assert(r == ultrarare_outcome(ring, context.is_members, z, draw, next, 0));
            r
        },
    }
}

} // verus!
