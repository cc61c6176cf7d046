//! enjo: a local-first task manager. This crate holds the verified core:
//! the task model, the orderings and views the screens show, the key-driven
//! state machine of the application, the status-bar line and the row codec
//! of the local database.

pub mod app;
pub mod cli;
pub mod clock;
pub mod codec;
pub mod config;
pub mod laws;
pub mod listing;
pub mod model;
pub mod ordering;
pub mod status;
pub mod text;
pub mod ui;
