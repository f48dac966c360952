use crate::inventory::{qty_of, spec_min, Inventory, InventoryId, ItemId};
use vstd::prelude::*;

verus! {

/// A snapshot of one drag gesture: the item being dragged, the quantity the
/// source stack held at drag start (a snapshot, not a live value), the source
/// container, and — once a destination is hovered — the destination container
/// and the quantity resolved for the move.
#[derive(Debug, Clone)]
pub struct DragInfo {
    pub item_id: ItemId,
    pub quantity: u64,
    pub source: InventoryId,
    pub destination: Option<InventoryId>,
    pub to_transfer: u64,
}

/// One quantity choice offered while hovering a destination container.
#[derive(Debug, Clone, Copy, PartialEq, Eq, Structural)]
pub enum TransferOption {
    /// A discrete quantity (1, 10, 100 or 1000), offered when it fits.
    Fixed(u64),
    /// The whole dragged quantity, offered when all of it fits.
    All(u64),
    /// The largest quantity that fits, offered when not all of it fits.
    Max(u64),
    /// Nothing fits: no commit is possible.
    CapacityExceeded,
}

/// The choices offered for a drag of `quantity` units when `can` units can
/// actually move (`can` is the dragged quantity clamped to the destination's
/// fittable amount): the discrete options that do not exceed `can`, then
/// exactly one of `All`, `Max` or `CapacityExceeded`.
pub open spec fn options_for(quantity: u64, can: int) -> Seq<TransferOption> {
    (if can >= 1 {
        seq![TransferOption::Fixed(1u64)]
    } else {
        seq![]
    }) + (if can >= 10 {
        seq![TransferOption::Fixed(10u64)]
    } else {
        seq![]
    }) + (if can >= 100 {
        seq![TransferOption::Fixed(100u64)]
    } else {
        seq![]
    }) + (if can >= 1000 {
        seq![TransferOption::Fixed(1000u64)]
    } else {
        seq![]
    }) + (if can <= 0 {
        seq![TransferOption::CapacityExceeded]
    } else if can < quantity {
        seq![TransferOption::Max(can as u64)]
    } else {
        seq![TransferOption::All(quantity)]
    })
}

/// The drag-and-drop transfer state machine, a short-lived client-side
/// negotiation over inventories: idle (`dragging` is `None`), dragging, and
/// hovering a destination (`destination` is set). Pointer positions are a
/// presentation concern and are not part of the machine.
#[derive(Debug, Clone)]
pub struct DragState {
    pub dragging: Option<DragInfo>,
}

impl DragState {
    /// Machine consistency: while a destination is set, the resolved
    /// quantity is non-zero and never exceeds the drag-start snapshot.
    pub open spec fn wf(self) -> bool {
        match self.dragging {
            None => true,
            Some(info) => {
                &&& info.quantity >= 1
                &&& (info.destination is Some ==> 1 <= info.to_transfer <= info.quantity)
                &&& (info.destination is None ==> info.to_transfer == 0)
            },
        }
    }

    /// The idle machine.
    pub fn new() -> (r: DragState)
        ensures
            r.wf(),
            r.dragging is None,
    {
        DragState { dragging: None }
    }

    /// Begins a drag of `item_id` out of `source`, capturing the quantity
    /// present at this moment; no destination is set yet.
    pub fn start_drag(&mut self, source: &Inventory, item_id: ItemId)
        requires
            source.wf(),
            qty_of(source.items@, item_id) > 0,
        ensures
            final(self).wf(),
            (final(self).dragging matches Some(info) && info.item_id == item_id && info.quantity
                == qty_of(source.items@, item_id) && info.source == source.id
                && info.destination is None && info.to_transfer == 0),
    {
        let quantity = source.item_quantity(item_id);
        self.dragging = Some(
            DragInfo {
                item_id,
                quantity,
                source: source.id.clone(),
                destination: None,
                to_transfer: 0,
            },
        );
    }

    /// How many units the current drag could move into `destination`: the
    /// drag-start snapshot clamped to the destination's fittable amount.
    pub fn qty_can_transfer(&self, destination: &Inventory) -> (r: u64)
        requires
            self.dragging is Some,
            destination.wf(),
        ensures
            r == spec_min(
                self.dragging.unwrap().quantity as int,
                destination.spec_fits(self.dragging.unwrap().item_id),
            ),
    {
        let info = self.dragging.as_ref().unwrap();
        let max_items = destination.fits_max_items(info.item_id);
        if info.quantity < max_items {
            info.quantity
        } else {
            max_items
        }
    }

    /// The quantity choices to surface while hovering `destination`.
    pub fn transfer_options(&self, destination: &Inventory) -> (r: Vec<TransferOption>)
        requires
            self.dragging is Some,
            destination.wf(),
        ensures
            r@ == options_for(
                self.dragging.unwrap().quantity,
                spec_min(
                    self.dragging.unwrap().quantity as int,
                    destination.spec_fits(self.dragging.unwrap().item_id),
                ),
            ),
    {
        let can = self.qty_can_transfer(destination);
        let quantity = self.dragging.as_ref().unwrap().quantity;
        let mut options: Vec<TransferOption> = Vec::new();
        if can >= 1 {
            options.push(TransferOption::Fixed(1));
        }
        if can >= 10 {
            options.push(TransferOption::Fixed(10));
        }
        if can >= 100 {
            options.push(TransferOption::Fixed(100));
        }
        if can >= 1000 {
            options.push(TransferOption::Fixed(1000));
        }
        if can == 0 {
            options.push(TransferOption::CapacityExceeded);
        } else if can < quantity {
            options.push(TransferOption::Max(can));
        } else {
            options.push(TransferOption::All(quantity));
        }
        proof {
            assert(options@ =~= options_for(
                self.dragging.unwrap().quantity,
                spec_min(
                    self.dragging.unwrap().quantity as int,
                    destination.spec_fits(self.dragging.unwrap().item_id),
                ),
            ));
        }
        options
    }

    /// Records `destination` and a resolved quantity for the current drag.
    /// The quantity must be one the destination can actually take, so that
    /// the commit on release moves exactly this amount.
    pub fn set_destination_with_qty(&mut self, destination: &Inventory, qty: u64)
        requires
            old(self).wf(),
            old(self).dragging is Some,
            destination.wf(),
            1 <= qty,
            qty <= spec_min(
                old(self).dragging.unwrap().quantity as int,
                destination.spec_fits(old(self).dragging.unwrap().item_id),
            ),
        ensures
            final(self).wf(),
            (final(self).dragging matches Some(info) && info.item_id == old(
                self,
            ).dragging.unwrap().item_id && info.quantity == old(self).dragging.unwrap().quantity
                && info.source == old(self).dragging.unwrap().source && info.destination == Some(
                destination.id,
            ) && info.to_transfer == qty),
    {
        let info = self.dragging.as_ref().unwrap();
        self.dragging = Some(
            DragInfo {
                item_id: info.item_id,
                quantity: info.quantity,
                source: info.source.clone(),
                destination: Some(destination.id.clone()),
                to_transfer: qty,
            },
        );
    }

    /// Leaving a destination without committing: the drag itself continues,
    /// with no destination and no resolved quantity.
    pub fn reset_destination(&mut self)
        requires
            old(self).wf(),
        ensures
            final(self).wf(),
            old(self).dragging is None ==> final(self).dragging is None,
            old(self).dragging is Some ==> (final(self).dragging matches Some(info)
                && info.item_id == old(self).dragging.unwrap().item_id && info.quantity == old(
                self,
            ).dragging.unwrap().quantity && info.source == old(self).dragging.unwrap().source
                && info.destination is None && info.to_transfer == 0),
    {
        match self.dragging.as_ref() {
            None => {},
            Some(info) => {
                self.dragging = Some(
                    DragInfo {
                        item_id: info.item_id,
                        quantity: info.quantity,
                        source: info.source.clone(),
                        destination: None,
                        to_transfer: 0,
                    },
                );
            },
        }
    }

    /// Release over a destination: commits the resolved quantity, removing
    /// it from the source and adding it to the destination, and returns the
    /// machine to idle. The hover step resolved the quantity against the
    /// destination's capacity and the source's stock, so the move is exact:
    /// nothing is truncated and nothing saturates.
    pub fn release_commit(&mut self, source: &mut Inventory, destination: &mut Inventory)
        requires
            old(self).wf(),
            old(self).dragging is Some,
            old(self).dragging.unwrap().destination == Some(old(destination).id),
            old(self).dragging.unwrap().source == old(source).id,
            old(source).wf(),
            old(destination).wf(),
            old(self).dragging.unwrap().to_transfer <= qty_of(
                old(source).items@,
                old(self).dragging.unwrap().item_id,
            ),
            old(self).dragging.unwrap().to_transfer <= old(destination).spec_fits(
                old(self).dragging.unwrap().item_id,
            ),
        ensures
            final(self).dragging is None,
            final(source).wf(),
            final(destination).wf(),
            qty_of(final(source).items@, old(self).dragging.unwrap().item_id) == qty_of(
                old(source).items@,
                old(self).dragging.unwrap().item_id,
            ) - old(self).dragging.unwrap().to_transfer,
            qty_of(final(destination).items@, old(self).dragging.unwrap().item_id) == qty_of(
                old(destination).items@,
                old(self).dragging.unwrap().item_id,
            ) + old(self).dragging.unwrap().to_transfer,
            forall|t: ItemId|
                t != old(self).dragging.unwrap().item_id ==> #[trigger] qty_of(
                    final(source).items@,
                    t,
                ) == qty_of(old(source).items@, t) && qty_of(final(destination).items@, t)
                    == qty_of(old(destination).items@, t),
            final(source).id == old(source).id,
            final(source).max_weight == old(source).max_weight,
            final(source).max_volume == old(source).max_volume,
            final(destination).id == old(destination).id,
            final(destination).max_weight == old(destination).max_weight,
            final(destination).max_volume == old(destination).max_volume,
    {
        let info = self.dragging.as_ref().unwrap();
        let item_id = info.item_id;
        let qty = info.to_transfer;
        source.remove_item(item_id, qty);
        destination.add_item(item_id, qty);
        self.dragging = None;
    }

    /// Release anywhere else (or with nothing resolved): a no-op on the
    /// inventories; the machine returns to idle.
    pub fn release_cancel(&mut self)
        ensures
            final(self).dragging is None,
    {
        self.dragging = None;
    }
}

} // verus!
