//! Default key bindings, slash commands and the settings catalog of the
//! pager, with their contracts.

pub mod keys;
pub mod terminal;
pub mod actions;
pub mod defaults;
pub mod keymap_laws;
pub mod text;
pub mod slash;
pub mod terminal_setup;
pub mod settings;
pub mod settings_laws;
pub mod terminal_setup_laws;
