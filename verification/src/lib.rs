//! A verified model of a grid of drop targets, each initially holding one
//! draggable element, together with the event dispatcher that moves an
//! element between cells during a drag-and-drop gesture.

pub mod dom;
pub mod ids;
pub mod model;
pub mod render;

use vstd::prelude::*;

verus! {

/// Number of rows in the grid.
pub const ROWS: u32 = 5;

/// Number of columns in the grid.
pub const COLS: u32 = 10;

} // verus!
