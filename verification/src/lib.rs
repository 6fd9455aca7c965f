//! The logic of a block-game client: item stacks and container windows, chat
//! text, game-state rules and screen layouts, as plain data with proved
//! contracts.

pub mod bridge_laws;
pub mod chat;
pub mod clientbound;
pub mod container;
pub mod ext_bridge;
pub mod floats;
pub mod game;
pub mod gui;
pub mod item;
pub mod nbt;
pub mod packets;
pub mod text;
pub mod word_laws;
