//! Container windows: the slots of an open window, the stacks behind them, and
//! the effect of every kind of click. Clicks are predicted locally and reported
//! with the packet that asks the server to do the same.
//!
//! The player inventory is window 0; every other window shows the container's
//! own slots followed by the 36 main and hotbar slots of the player.

pub mod click;
pub mod click_laws;
pub mod engine;
pub mod laws;
pub mod layout_laws;
pub mod limits;
pub mod layout;
pub mod reach;
pub mod shift_laws;
pub mod state;
pub mod trades;
pub mod updates;
