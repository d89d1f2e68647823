use rand::SeedableRng;
use rand::rngs::StdRng;
use talisman_sim::combat::CombatStats;
use talisman_sim::inventory::{Inventory, Item};
use talisman_sim::loot::{
    band_of, jewel_for, jewel_pick, megarare_pick, random_jewel, ultrarare_pick, ultrarare_table, JewelPick,
    Loot, Reward, UltraPick,
};
use talisman_sim::player::{GameContext, Loadout, MeleeDps, MeleeStyle, Player, PlayerCoords};

fn give(reward: Reward, quantity: usize) -> Loot {
    Loot { reward, quantity }
}

fn context(members: bool, z: i32, ring: bool) -> GameContext {
    let mut inventory = Inventory::default();
    if ring {
        inventory.add_item(Item::new("ring_of_wealth", 1));
    }
    let player = Player::new(
        Loadout::Melee(MeleeDps {
            str_bonus: 30,
            style: MeleeStyle::Aggressive,
            accuracy: 69,
            rate: 5,
            def_bonus: 103,
        }),
        inventory,
        PlayerCoords::new(0, 0, z),
        CombatStats { str_level: 60, def_level: 40, att_level: 60, hp_level: 60, current_hp: 60 },
    );
    GameContext::new(members, player)
}

#[test]
fn band_lookup_edges() {
    let bounds = vec![0u32, 3, 5, 10];
    assert_eq!(band_of(&bounds, 0), Some(0));
    assert_eq!(band_of(&bounds, 2), Some(0));
    assert_eq!(band_of(&bounds, 3), Some(1));
    assert_eq!(band_of(&bounds, 9), Some(2));
    assert_eq!(band_of(&bounds, 10), None);
    assert_eq!(band_of(&vec![4u32, 8], 3), None);
    assert_eq!(band_of(&Vec::new(), 3), None);
}

#[test]
fn top_table_bands() {
    assert_eq!(ultrarare_pick(0), UltraPick::Give(give(Reward::NatureRune, 67)));
    assert_eq!(ultrarare_pick(2), UltraPick::Give(give(Reward::NatureRune, 67)));
    assert_eq!(ultrarare_pick(3), UltraPick::Give(give(Reward::AdamantJavelin, 20)));
    assert_eq!(ultrarare_pick(21), UltraPick::Give(give(Reward::DragonMedHelm, 1)));
    assert_eq!(ultrarare_pick(23), UltraPick::Give(give(Reward::Coins, 3000)));
    assert_eq!(ultrarare_pick(43), UltraPick::Give(give(Reward::Coins, 3000)));
    assert_eq!(ultrarare_pick(92), UltraPick::Give(give(Reward::CertSilverOre, 100)));
    assert_eq!(ultrarare_pick(93), UltraPick::Jewel);
    assert_eq!(ultrarare_pick(112), UltraPick::Jewel);
    assert_eq!(ultrarare_pick(113), UltraPick::Mega);
    assert_eq!(ultrarare_pick(127), UltraPick::Mega);
    // the draw is reduced modulo 128
    assert_eq!(ultrarare_pick(128), UltraPick::Give(give(Reward::NatureRune, 67)));
    assert_eq!(ultrarare_pick(128 + 93), UltraPick::Jewel);
}

#[test]
fn top_table_covers_every_draw() {
    for d in 0..128u32 {
        // every reduced draw resolves to something: no gaps on this table
        let _ = ultrarare_pick(d);
        assert_eq!(ultrarare_pick(d), ultrarare_pick(d + 128));
    }
}

#[test]
fn nested_rare_table_bands() {
    assert_eq!(megarare_pick(0), Some(give(Reward::RuneSpear, 1)));
    assert_eq!(megarare_pick(7), Some(give(Reward::RuneSpear, 1)));
    assert_eq!(megarare_pick(8), Some(give(Reward::ShieldLeftHalf, 1)));
    assert_eq!(megarare_pick(14), Some(give(Reward::DragonSpear, 1)));
    assert_eq!(megarare_pick(15), None);
    assert_eq!(megarare_pick(127), None);
    assert_eq!(megarare_pick(128), Some(give(Reward::RuneSpear, 1)));
}

#[test]
fn gem_table_bands() {
    assert_eq!(jewel_pick(false, true, 0, 0), JewelPick::Give(give(Reward::UncutSapphire, 1)));
    assert_eq!(jewel_pick(false, true, 0, 32), JewelPick::Give(give(Reward::UncutEmerald, 1)));
    assert_eq!(jewel_pick(false, true, 0, 48), JewelPick::Give(give(Reward::UncutRuby, 1)));
    assert_eq!(jewel_pick(false, true, 0, 57), JewelPick::Give(give(Reward::UncutDiamond, 1)));
    assert_eq!(jewel_pick(false, true, 0, 58), JewelPick::Give(give(Reward::RuneJavelin, 5)));
    assert_eq!(jewel_pick(false, true, 0, 59), JewelPick::Give(give(Reward::HalfKey1, 1)));
    assert_eq!(jewel_pick(false, true, 0, 60), JewelPick::Give(give(Reward::HalfKey2, 1)));
    assert_eq!(jewel_pick(false, true, 0, 61), JewelPick::Mega);
    assert_eq!(jewel_pick(false, true, 0, 62), JewelPick::Give(give(Reward::NatureTalisman, 1)));
    assert_eq!(jewel_pick(false, true, 0, 64), JewelPick::Give(give(Reward::NatureTalisman, 1)));
    assert_eq!(jewel_pick(false, true, 0, 65), JewelPick::Nothing);
    assert_eq!(jewel_pick(false, true, 0, 127), JewelPick::Nothing);
}

#[test]
fn gem_table_members_only_bands_give_nothing_otherwise() {
    for d in 58..65u32 {
        assert_eq!(jewel_pick(false, false, 0, d), JewelPick::Nothing);
    }
    assert_eq!(jewel_pick(false, false, 0, 57), JewelPick::Give(give(Reward::UncutDiamond, 1)));
}

#[test]
fn gem_table_region_swaps_talisman() {
    assert_eq!(jewel_pick(false, true, 6400, 63), JewelPick::Give(give(Reward::NatureTalisman, 1)));
    assert_eq!(jewel_pick(false, true, 6401, 63), JewelPick::Give(give(Reward::ChaosTalisman, 1)));
}

#[test]
fn ring_rescales_gem_table() {
    // 100 lies past the last band without the ring, and is 35 modulo 65
    assert_eq!(jewel_pick(false, true, 0, 100), JewelPick::Nothing);
    assert_eq!(jewel_pick(true, true, 0, 100), JewelPick::Give(give(Reward::UncutEmerald, 1)));
    // 127 is 62 modulo 65: the talisman band
    assert_eq!(jewel_pick(true, true, 0, 127), JewelPick::Give(give(Reward::NatureTalisman, 1)));
    // with the ring no draw gives nothing to a member
    for d in 0..1000u32 {
        assert_ne!(jewel_pick(true, true, 0, d), JewelPick::Nothing);
    }
    // share of the talisman band: 3 of 65 against 3 of 128
    let with_ring = (0..65u32)
        .filter(|d| jewel_pick(true, true, 0, *d) == JewelPick::Give(give(Reward::NatureTalisman, 1)))
        .count();
    let without = (0..128u32)
        .filter(|d| jewel_pick(false, true, 0, *d) == JewelPick::Give(give(Reward::NatureTalisman, 1)))
        .count();
    assert_eq!((with_ring, without), (3, 3));
}

#[test]
fn random_tables_give_table_rewards() {
    let mut rng = StdRng::seed_from_u64(3);
    let ctx = context(true, 0, false);
    for _ in 0..200 {
        if let Some(l) = random_jewel(&ctx, &mut rng) {
            assert!(l.quantity >= 1);
            assert_ne!(l.reward, Reward::ChaosTalisman);
        }
        if let Some(l) = ultrarare_table(&ctx, &mut rng) {
            assert!(l.quantity >= 1);
        }
    }
    // with the ring, nothing comes only through the nested rare table
    let ring_ctx = context(true, 0, true);
    let mut some = 0;
    for _ in 0..200 {
        if random_jewel(&ring_ctx, &mut rng).is_some() {
            some += 1;
        }
    }
    assert!(some >= 190);
}

#[test]
fn reward_names() {
    assert_eq!(Reward::NatureTalisman.name(), "nature_talisman");
    assert_eq!(Reward::CertSilverOre.name(), "cert_silver_ore");
    assert_eq!(Reward::Rune2hSword.name(), "rune_2h_sword");
}

#[test]
fn context_reads_vertical_coordinate() {
    let ctx = context(true, 6401, false);
    assert_eq!(ctx.coordz(), 6401);
    assert_eq!(PlayerCoords::new(1, 2, 3).coordz(), 3);
}

#[test]
fn gem_table_for_context_reads_ring() {

    assert_eq!(jewel_for(&context(true, 0, false), 100), JewelPick::Nothing);
    assert_eq!(jewel_for(&context(true, 0, true), 100), JewelPick::Give(give(Reward::UncutEmerald, 1)));
    assert_eq!(jewel_for(&context(false, 0, true), 62), JewelPick::Nothing);
    assert_eq!(jewel_for(&context(true, 7000, false), 62), JewelPick::Give(give(Reward::ChaosTalisman, 1)));
}
