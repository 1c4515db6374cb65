//! An Archipelago client for From Software games: what it decides, apart from
//! the game, the network and the screen that it acts on.
//!
//! Archipelago connects many players' games into one multiworld, in which the
//! items of each game are scattered over all of them. The client is loaded into
//! the game. It reports the locations that the player visits to the server,
//! hands the player the items that other worlds send, passes on deaths, and
//! shows a log and a chat on top of the game.
//!
//! Whatever the embedding program sees of the game and the connection it hands
//! to this library as plain values. The library answers with what to do, and is
//! told once that is done.

pub mod client;
pub mod clock;
pub mod colors;
pub mod command;
pub mod config;
pub mod core_base;
pub mod ds3;
pub mod error;
pub mod game;
pub mod inventory;
pub mod items;
pub mod log_buffer;
pub mod overlay;
pub mod print;
pub mod sdt;
pub mod section_profiler;
pub mod startup;
pub mod text;
