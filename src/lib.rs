//! An in-memory bill tracker: an ordered store of bills and the menu logic
//! that validates what a user enters and turns it into store operations.

pub mod store;
pub mod text;
pub mod menu;
