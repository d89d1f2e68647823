//! Monte Carlo estimate of how long a player has to fight a given kind of
//! opponent before the rare gem table hands out a nature talisman.

mod draws;
pub mod combat;
pub mod inventory;
pub mod player;
pub mod loot;
pub mod opponent;
pub mod trial;
