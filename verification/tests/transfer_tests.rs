use trade_world::inventory::{Inventory, ItemId};
use trade_world::transfer::{DragState, TransferOption};

#[test]
fn hover_offers_max_when_not_all_fits_and_commit_is_exact() {
    // source holds 50 LOG; destination can still fit 20 LOG
    let mut source = Inventory::new();
    source.add_item(ItemId::Log, 50);
    let mut destination = Inventory::new();
    destination.add_item(ItemId::Log, 480);
    assert_eq!(destination.fits_max_items(ItemId::Log), 20);

    let mut drag = DragState::new();
    drag.start_drag(&source, ItemId::Log);
    {
        let info = drag.dragging.as_ref().unwrap();
        assert_eq!(info.quantity, 50);
        assert_eq!(info.source, source.id);
        assert!(info.destination.is_none());
    }
    assert_eq!(drag.qty_can_transfer(&destination), 20);
    let options = drag.transfer_options(&destination);
    assert_eq!(
        options,
        vec![
            TransferOption::Fixed(1),
            TransferOption::Fixed(10),
            TransferOption::Max(20)
        ]
    );
    assert!(!options.contains(&TransferOption::All(50)));

    drag.set_destination_with_qty(&destination, 20);
    drag.release_commit(&mut source, &mut destination);
    assert!(drag.dragging.is_none());
    assert_eq!(source.item_quantity(ItemId::Log), 30);
    assert_eq!(destination.item_quantity(ItemId::Log), 500);
    assert_eq!(destination.weight, 500_000);
}

#[test]
fn hover_offers_all_when_everything_fits() {
    let mut source = Inventory::new();
    source.add_item(ItemId::Water, 12);
    let destination = Inventory::new();
    let mut drag = DragState::new();
    drag.start_drag(&source, ItemId::Water);
    let options = drag.transfer_options(&destination);
    assert_eq!(
        options,
        vec![
            TransferOption::Fixed(1),
            TransferOption::Fixed(10),
            TransferOption::All(12)
        ]
    );
}

#[test]
fn hover_reports_capacity_exceeded_when_nothing_fits() {
    let mut source = Inventory::new();
    source.add_item(ItemId::Log, 5);
    let mut destination = Inventory::new();
    destination.add_item(ItemId::Log, 500);
    let mut drag = DragState::new();
    drag.start_drag(&source, ItemId::Log);
    assert_eq!(drag.qty_can_transfer(&destination), 0);
    let options = drag.transfer_options(&destination);
    assert_eq!(options, vec![TransferOption::CapacityExceeded]);
}

#[test]
fn leaving_the_destination_keeps_the_drag() {
    let mut source = Inventory::new();
    source.add_item(ItemId::Boards, 30);
    let destination = Inventory::new();
    let mut drag = DragState::new();
    drag.start_drag(&source, ItemId::Boards);
    drag.set_destination_with_qty(&destination, 10);
    {
        let info = drag.dragging.as_ref().unwrap();
        assert_eq!(info.to_transfer, 10);
        assert_eq!(info.destination.as_ref().unwrap(), &destination.id);
    }
    drag.reset_destination();
    {
        let info = drag.dragging.as_ref().unwrap();
        assert_eq!(info.to_transfer, 0);
        assert!(info.destination.is_none());
        assert_eq!(info.quantity, 30);
    }
    // releasing with no destination moves nothing
    drag.release_cancel();
    assert!(drag.dragging.is_none());
    assert_eq!(source.item_quantity(ItemId::Boards), 30);
}

#[test]
fn fixed_options_track_the_transferable_quantity() {
    let mut source = Inventory::new();
    source.add_item(ItemId::Log, 450);
    let destination = Inventory::new();
    let mut drag = DragState::new();
    drag.start_drag(&source, ItemId::Log);
    // 450 fit entirely: options 1, 10, 100 and ALL (1000 exceeds 450)
    let options = drag.transfer_options(&destination);
    assert_eq!(
        options,
        vec![
            TransferOption::Fixed(1),
            TransferOption::Fixed(10),
            TransferOption::Fixed(100),
            TransferOption::All(450)
        ]
    );
}
