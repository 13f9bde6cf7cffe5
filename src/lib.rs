//! Core of a command-line client for a qBittorrent-style daemon: settings
//! resolution, request planning, response checks, filtering and formatting.

pub mod text;
pub mod format;
pub mod settings;
pub mod listing;
pub mod api;
