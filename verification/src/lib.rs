//! Round-resolution engine of a two-player hide-and-hunt game: the map of
//! sections and sub-sections, the rules that resolve one round, and the
//! decisions of the lock-step move exchange between two peers.

pub mod errors;
pub mod game;
pub mod multiplayer;
pub mod util;
