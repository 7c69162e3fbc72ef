//! The desktop front-end: its data model, its reducer, and the commands it
//! sends to the daemon.
pub mod app;
pub mod bridge;
pub mod model;
pub mod view;
