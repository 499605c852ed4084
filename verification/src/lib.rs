//! The logic of a terminal interface that browses the traffic of a proxy.
//!
//! The state of the interface is an [`app::App`]; what it does on keys and messages
//! is stated over [`model::AppState`], what it shows over the types of [`scene`].
pub mod actions;
pub mod app;
pub mod chrome;
pub mod details;
pub mod input;
pub mod key_laws;
pub mod keys;
pub mod laws;
pub mod layout;
pub mod list;
pub mod model;
pub mod nav;
pub mod scene;
pub mod screen_laws;
pub mod text;
pub mod traffic;
