//! A diary report library: strict calendar-date handling, grouping of
//! accomplishments by category and a deterministic text rendering of the
//! sessions recorded on one day.
pub mod assembly;
pub mod date;
pub mod error;
pub mod laws;
pub mod model;
pub mod report;
pub mod text;
pub mod timestamp;
