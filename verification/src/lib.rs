//! Bent's file selection core: which image file the user picked for reading
//! and which for writing, how a pick is validated, and how the result of a
//! file dialog is collected without ever blocking the interface.

pub mod app;
pub mod direction;
pub mod files;
pub mod formats;
pub mod picker;
pub mod store;
