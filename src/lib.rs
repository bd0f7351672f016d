//! Directory listings as JSON: the decisions between reading a directory's
//! entries and printing them, with their contracts.
pub mod listing;
pub mod output;
pub mod driver;
pub mod laws;
