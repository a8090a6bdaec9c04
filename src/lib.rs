//! A turn-based market trading simulation: commodities with randomized
//! prices, an inventory ledger, random market events and a debt that accrues
//! interest on each day of travel.

pub mod drugs;
pub mod events;
pub mod game;
pub mod inventory;
pub mod locations;
mod random;
pub mod text;
