//! Settings for the downloader: the general `Config`, the `Login` credentials,
//! and the set-once state that holds both for the life of the process.

pub mod text;
pub mod error;
pub mod config;
pub mod login;
pub mod state;
