//! Shell history recording, import and fuzzy search, with verified contracts.

pub mod cli;
pub mod db;
pub mod handlers;
pub mod importer;
pub mod importer_parsers;
pub mod model;
pub mod number;
pub mod privacy;
pub mod search;
pub mod text;
pub mod time;
pub mod tui;
pub mod validators;
