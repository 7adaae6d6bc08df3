//! Core logic of a terminal profile switcher for cloud credentials.

pub mod app;
pub mod auth;
pub mod backend;
pub mod credentials;
pub mod discovery;
pub mod keys;
pub mod laws;
pub mod layout;
pub mod lists;
pub mod model;
pub mod profile;
pub mod protocol;
pub mod store;
pub mod sync;
pub mod text;
pub mod update;
