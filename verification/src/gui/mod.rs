//! The screens: where their parts are, and what clicks and keys do.

pub mod chat_screen;
pub mod controls;
pub mod edit_server;
pub mod form_laws;
pub mod inventory;
pub mod list_picture;
pub mod marks;
pub mod menus;
pub mod merchant;
pub mod multiplayer;
pub mod picture_laws;
pub mod pictures;
pub mod screen_laws;
pub mod shaders;
pub mod sound_options;
pub mod widgets;
pub mod window_laws;
pub mod window_picture;
