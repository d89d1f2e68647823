use talisman_sim::inventory::{Bank, Inventory, Item, INVENTORY_SLOTS};

#[test]
fn item_new_keeps_name_and_quantity() {
    let item = Item::new("coins", 3000);
    assert_eq!(item.name, "coins");
    assert_eq!(item.quantity, 3000);
}

#[test]
fn certificates_take_one_slot() {
    assert_eq!(Item::new("cert_silver_ore", 100).slots_needed(), 1);
    assert_eq!(Item::new("steel_arrow", 150).slots_needed(), 150);
    assert_eq!(Item::new("cert", 4).slots_needed(), 4);
    assert_eq!(Item::new("cert_", 0).slots_needed(), 1);
}

#[test]
fn empty_inventory() {
    let inv = Inventory::default();
    assert_eq!(inv.items.len(), INVENTORY_SLOTS);
    assert!(inv.is_wf());
    assert_eq!(inv.first_available(), Some(0));
    assert!(inv.can_loot());
    assert_eq!(inv.total_of("coins"), 0);
    assert_eq!(inv.index_of("coins"), None);
}

#[test]
fn add_item_stacks_by_name() {
    let mut inv = Inventory::default();
    inv.add_item(Item::new("coins", 3000));
    inv.add_item(Item::new("naturerune", 67));
    inv.add_item(Item::new("coins", 3000));
    assert_eq!(inv.total_of("coins"), 6000);
    assert_eq!(inv.total_of("naturerune"), 67);
    assert_eq!(inv.index_of("coins"), Some(0));
    assert_eq!(inv.index_of("naturerune"), Some(1));
    assert_eq!(inv.first_available(), Some(2));
    assert!(inv.is_wf());
}

#[test]
fn full_inventory_cannot_loot() {
    let mut inv = Inventory::default();
    for i in 0..INVENTORY_SLOTS {
        inv.add_item(Item::new(&format!("item{}", i), 1));
    }
    assert_eq!(inv.first_available(), None);
    assert!(!inv.can_loot());
    // an existing stack still grows
    inv.add_item(Item::new("item3", 4));
    assert_eq!(inv.total_of("item3"), 5);
}

#[test]
fn duplicate_names_are_not_well_formed() {
    let mut inv = Inventory::default();
    inv.items[2] = Some(Item::new("coins", 1));
    inv.items[5] = Some(Item::new("coins", 2));
    assert!(!inv.is_wf());
    let mut short = Inventory::default();
    short.items.pop();
    assert!(!short.is_wf());
}

#[test]
fn clear_empties_every_slot() {
    let mut inv = Inventory::default();
    inv.add_item(Item::new("coins", 5));
    inv.clear();
    assert!(inv.items.iter().all(|s| s.is_none()));
    assert_eq!(inv.items.len(), INVENTORY_SLOTS);
}

#[test]
fn banking_moves_totals_and_empties() {
    let mut bank = Bank::new();
    let mut inv = Inventory::default();
    inv.add_item(Item::new("coins", 3000));
    inv.add_item(Item::new("lawrune", 45));
    inv.bank(&mut bank);
    assert_eq!(inv.first_available(), Some(0));
    assert_eq!(inv.total_of("coins"), 0);
    inv.add_item(Item::new("coins", 1));
    inv.bank(&mut bank);
    assert_eq!(bank.total_of("coins"), 3001);
    assert_eq!(bank.total_of("lawrune"), 45);
    assert_eq!(bank.total_of("deathrune"), 0);
}

#[test]
fn bank_store_wraps_on_overflow() {
    let mut bank = Bank::new();
    bank.store(&Item::new("coins", usize::MAX));
    bank.store(&Item::new("coins", 2));
    assert_eq!(bank.total_of("coins"), 1);
}
