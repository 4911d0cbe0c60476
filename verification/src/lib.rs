//! Verified core of the `nls` directory lister: cell building, grid layout,
//! colour and icon themes, permission strings and argument handling.

pub mod utils;
pub mod config;
pub mod text;
pub mod output;
pub mod theme;
pub mod ls_colors;
pub mod os;
pub mod entry;
pub mod args;
pub mod logger;
pub mod listing;
