use trade_world::inventory::{Inventory, ItemDetails, ItemId};

fn stored_quantity(inv: &Inventory, id: ItemId) -> u64 {
    inv.item_quantity(id)
}

fn footprint_sums(inv: &Inventory) -> (u64, u64) {
    let mut weight = 0u64;
    let mut volume = 0u64;
    for stack in &inv.items {
        let d = ItemDetails::get(stack.id);
        weight += d.weight * stack.quantity;
        volume += d.volume * stack.quantity;
    }
    (weight, volume)
}

#[test]
fn catalog_entries_match_the_fixed_table() {
    let log = ItemDetails::get(ItemId::Log);
    assert_eq!(log.name, "Logs");
    assert_eq!(log.category, "Raw Materials");
    assert_eq!(log.weight, 1_000);
    assert_eq!(log.volume, 1_000);
    let chair = ItemDetails::get(ItemId::Chair);
    assert_eq!(chair.weight, 900);
    assert_eq!(chair.volume, 3_000);
    assert_eq!(ItemDetails::all().len(), 5);
    assert_eq!(ItemId::Water.code(), "H2O");
}

#[test]
fn fresh_inventory_has_a_36_char_identifier() {
    let inv = Inventory::new();
    assert_eq!(inv.id.0.len(), 36);
    // two containers get distinct identifiers in practice
    let other = Inventory::new();
    assert!(inv.id != other.id);
}

#[test]
fn add_truncates_to_capacity() {
    // max_weight = max_volume = 500_000, LOG is 1000/1000 per unit:
    // 600 requested, 500 fit
    let mut inv = Inventory::new();
    assert_eq!(inv.fits_max_items(ItemId::Log), 500);
    inv.add_item(ItemId::Log, 600);
    assert_eq!(stored_quantity(&inv, ItemId::Log), 500);
    assert_eq!(inv.weight, 500_000);
    assert_eq!(inv.volume, 500_000);
    assert_eq!(inv.fits_max_items(ItemId::Log), 0);
}

#[test]
fn fits_is_the_min_of_weight_and_volume_budget() {
    // CHR: weight 900, volume 3000; fresh budget 500_000 each:
    // by weight 555, by volume 166
    let inv = Inventory::new();
    assert_eq!(inv.fits_max_items(ItemId::Chair), 166);
    // DBG: 5100 / 8100 -> min(98, 61)
    assert_eq!(inv.fits_max_items(ItemId::Dbg), 61);
}

#[test]
fn conservation_holds_across_adds_and_removes() {
    let mut inv = Inventory::new();
    inv.add_item(ItemId::Log, 100);
    inv.add_item(ItemId::Water, 50);
    inv.add_item(ItemId::Log, 25);
    inv.remove_item(ItemId::Log, 30);
    inv.add_item(ItemId::Chair, 10);
    inv.remove_item(ItemId::Water, 50);
    let (weight, volume) = footprint_sums(&inv);
    assert_eq!(inv.weight, weight);
    assert_eq!(inv.volume, volume);
    assert!(inv.weight <= inv.max_weight);
    assert!(inv.volume <= inv.max_volume);
    assert_eq!(stored_quantity(&inv, ItemId::Log), 95);
    assert_eq!(stored_quantity(&inv, ItemId::Water), 0);
    assert_eq!(stored_quantity(&inv, ItemId::Chair), 10);
}

#[test]
fn no_stack_is_ever_empty() {
    let mut inv = Inventory::new();
    inv.add_item(ItemId::Log, 10);
    inv.add_item(ItemId::Water, 5);
    // removing everything deletes the stack instead of leaving a zero
    inv.remove_item(ItemId::Water, 5);
    for stack in &inv.items {
        assert!(stack.quantity > 0);
    }
    assert_eq!(inv.items.len(), 1);
    // an add that fits nothing creates no stack either
    let mut full = Inventory::new();
    full.add_item(ItemId::Log, 500);
    full.add_item(ItemId::Water, 40);
    assert_eq!(full.fits_max_items(ItemId::Water), 0);
    assert_eq!(full.items.len(), 1);
    for stack in &full.items {
        assert!(stack.quantity > 0);
    }
}

#[test]
fn remove_saturates_at_zero_and_shrinks_by_the_removed_amount() {
    let mut inv = Inventory::new();
    inv.add_item(ItemId::Boards, 40);
    let weight_before = inv.weight;
    // asking for more than is present removes only what is there
    inv.remove_item(ItemId::Boards, 100);
    assert_eq!(stored_quantity(&inv, ItemId::Boards), 0);
    assert_eq!(inv.items.len(), 0);
    assert_eq!(inv.weight, weight_before - 40 * 1_000);
    assert_eq!(inv.volume, 0);
}

#[test]
fn capacity_invariant_after_many_adds() {
    let mut inv = Inventory::new();
    for _ in 0..20 {
        inv.add_item(ItemId::Dbg, 7);
    }
    assert!(inv.weight <= inv.max_weight);
    assert!(inv.volume <= inv.max_volume);
    let (weight, volume) = footprint_sums(&inv);
    assert_eq!(inv.weight, weight);
    assert_eq!(inv.volume, volume);
}
