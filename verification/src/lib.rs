//! The resource and economy simulation engine of a tycoon-style game: land
//! ledgers, worker pools, housing and production buildings, bounded item
//! containers, and the drag-and-drop transfer protocol between them. Every
//! operation is specified by its contract and verified; the rendering layer
//! around it only reads the accessors and calls the mutating entry points.

pub mod buildings;
pub mod errors;
pub mod game_state;
pub mod housing;
pub mod inventory;
pub mod land;
pub mod production;
pub mod tile;
pub mod transfer;
pub mod utils;
pub mod workers;
