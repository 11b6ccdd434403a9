//! Core of an in-terminal command launcher: a catalog of titled shell
//! commands is filtered by case-insensitive substring search, a wraparound
//! cursor selects one entry of the filtered list, and a viewport decides
//! which rows of that list fit in a bounded number of terminal rows.
//!
//! Everything here is pure state and arithmetic; reading input events,
//! drawing the rows and spawning the chosen command are the host's work.

pub mod command;
pub mod filter;
pub mod launch;
pub mod state;
pub mod text;
pub mod viewport;
