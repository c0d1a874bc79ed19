//! The logic of isamedia, a terminal client for Jellyfin, Radarr and Sonarr:
//! what the screens hold, what a key or a server reply does to them, and what
//! they show. Reading keys, talking to servers and painting the terminal is
//! the work of the program around it.

pub mod app;
pub mod apps;
pub mod arr;
pub mod config;
pub mod jellyfin;
pub mod json;
pub mod lang;
pub mod net;
pub mod radarr;
pub mod secrets;
pub mod sonarr;
pub mod text;
pub mod ui;
