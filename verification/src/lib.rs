//! Cells that are created empty, initialized once, and then read and written.
pub mod state;
pub mod gate;
pub mod protocol;
pub mod init;
pub mod model;
pub mod raw_cell;
pub mod error;
pub mod traits;
pub mod cell;
pub use crate::cell::Cell;
