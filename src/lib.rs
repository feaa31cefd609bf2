//! Navigation state, key dispatch and screen composition for an interactive
//! terminal résumé.
pub mod about_me;
pub mod employment;
pub mod events;
pub mod keymap;
pub mod laws;
pub mod layout;
pub mod settings;
pub mod state;
pub mod tabs;
