//! Time and date conversion logic of a tray-resident clipboard utility:
//! rendering unix timestamps as local date/time text, reading unix time
//! input typed by a user, reading date/time text in several shapes, and
//! the small text transformations that the utility applies to clipboard
//! contents.

pub mod announce;
pub mod chrono_bridge;
pub mod commands;
pub mod datetime;
pub mod decimal;
pub mod laws;
pub mod line_break_laws;
pub mod text;
pub mod tray;
