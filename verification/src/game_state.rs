use crate::tile::Tile;
use vstd::prelude::*;

verus! {

/// Process-wide session state: the global cash balance (in cents) and every
/// land parcel of the world. Constructed once at session start, owned by the
/// caller, and threaded explicitly through all operations.
#[derive(Debug)]
pub struct GameState {
    pub cash: u64,
    pub tiles: Vec<Tile>,
}

impl GameState {
    pub open spec fn wf(self) -> bool {
        forall|i: int| 0 <= i < self.tiles@.len() ==> (#[trigger] self.tiles@[i]).wf()
    }

    /// A fresh session: the starting balance and no tiles yet.
    pub fn new() -> (r: GameState)
        ensures
            r.wf(),
            r.cash == 1_000_000,
            r.tiles@.len() == 0,
    {
        GameState { cash: 1_000_000, tiles: Vec::new() }
    }

    /// Buys the tile at `index` when the cash balance covers its price:
    /// debits the price and marks the tile owned. Otherwise nothing changes.
    pub fn buy_tile(&mut self, index: usize) -> (r: bool)
        requires
            old(self).wf(),
            index < old(self).tiles@.len(),
        ensures
            final(self).wf(),
            final(self).tiles@.len() == old(self).tiles@.len(),
            r <==> old(self).cash >= old(self).tiles@[index as int].price,
            r ==> final(self).cash == old(self).cash - old(self).tiles@[index as int].price,
            r ==> final(self).tiles@[index as int].is_owned,
            r ==> final(self).tiles@[index as int].tile_state == old(self).tiles@[
                index as int
            ].tile_state,
            r ==> final(self).tiles@[index as int].id == old(self).tiles@[index as int].id,
            r ==> final(self).tiles@[index as int].price == old(self).tiles@[index as int].price,
            r ==> final(self).tiles@[index as int].description == old(self).tiles@[
                index as int
            ].description,
            r ==> final(self).tiles@[index as int].resources == old(self).tiles@[
                index as int
            ].resources,
            r ==> final(self).tiles@[index as int].row == old(self).tiles@[index as int].row
                && final(self).tiles@[index as int].col == old(self).tiles@[index as int].col,
            r ==> forall|i: int|
                0 <= i < old(self).tiles@.len() && i != index ==> final(self).tiles@[i] == old(
                    self,
                ).tiles@[i],
            !r ==> *final(self) == *old(self),
    {
        let price = self.tiles[index].price;
        if self.cash >= price {
            self.cash = self.cash - price;
            let ghost pre = self.tiles@;
            let mut tile = self.tiles.remove(index);
            tile.is_owned = true;
            let ghost bought = tile;
            self.tiles.insert(index, tile);
            proof {
                assert(self.tiles@ =~= pre.update(index as int, bought));
            }
            true
        } else {
            false
        }
    }
}

} // verus!
