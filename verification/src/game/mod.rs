//! The running game: what the client knows of the world and the player, and the
//! rules by which it acts.

pub mod actions;
pub mod aim;
pub mod commands;
pub mod deed_laws;
pub mod demos;
pub mod dispatch;
pub mod draw_laws;
pub mod drawing;
pub mod entities;
pub mod fingerprint;
pub mod fixtures;
pub mod ground_laws;
pub mod hand;
pub mod hand_laws;
pub mod input;
pub mod interface;
pub mod mining;
pub mod mining_laws;
pub mod motion;
pub mod moving;
pub mod music;
pub mod noise;
pub mod packet_laws;
pub mod place_laws;
pub mod player;
pub mod residency;
pub mod rules;
pub mod scene_laws;
pub mod sections;
pub mod sounds;
pub mod state;
pub mod status_laws;
pub mod stillness;
pub mod tag_laws;
pub mod terrain;
pub mod tick_laws;
pub mod title;
pub mod upkeep_laws;
pub mod vitals;
pub mod weather;
pub mod windows;
pub mod worldgen;
