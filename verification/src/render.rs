//! The grid renderer: a heading and a fixed table of cells, each cell
//! holding one draggable element labeled with its coordinates and
//! tagged with the identifier of its position.

use crate::ids::cell_id;
use crate::ids::cell_id_spec;
use crate::ids::dec_spec;
use crate::ids::u32_to_decimal;
use crate::model::Model;
use crate::COLS;
use crate::ROWS;
use vstd::prelude::*;

verus! {

/// One rendered cell: a drop target containing one draggable element
/// with its identifier and label.
#[derive(Debug)]
pub struct CellView {
    pub id: String,
    pub label: String,
    pub draggable: bool,
}

/// The rendered document: a heading and the table's rows.
#[derive(Debug)]
pub struct Rendered {
    pub heading: String,
    pub rows: Vec<Vec<CellView>>,
}

/// The label of the element at `(row, col)`: the word `cell`, the
/// decimal column, then the decimal row, separated by single spaces.
pub open spec fn label_spec(row: u32, col: u32) -> Seq<char> {
    seq!['c', 'e', 'l', 'l', ' '] + dec_spec(col as nat) + seq![' '] + dec_spec(row as nat)
}

/// A cell view renders position `(row, col)`: the element carries the
/// identifier of that position, its label, and is draggable.
pub open spec fn renders(cv: CellView, row: u32, col: u32) -> bool {
    &&& cv.id@ == cell_id_spec(row as nat, col as nat)
    &&& cv.label@ == label_spec(row, col)
    &&& cv.draggable
}

/// Renders one cell of the grid.
pub fn view_square(row: u32, column: u32) -> (cv: CellView)
    ensures
        renders(cv, row, column),
{
    let id = cell_id(row, column);
    let mut label = String::from_str("cell ");
    proof {
        reveal_strlit("cell ");
        assert("cell "@ =~= seq!['c', 'e', 'l', 'l', ' ']);
        reveal_strlit(" ");
        assert(" "@ =~= seq![' ']);
    }
    let c_dec = u32_to_decimal(column);
    label.append(c_dec.as_str());
    label.append(" ");
    let r_dec = u32_to_decimal(row);
    label.append(r_dec.as_str());
    proof {
        assert(label@ =~= label_spec(row, column));
    }
    CellView { id, label, draggable: true }
}

/// Renders one row of the grid: one cell view per column.
pub fn view_row(row: u32) -> (cells: Vec<CellView>)
    ensures
        cells@.len() == COLS,
        forall|c: int| 0 <= c < cells@.len() ==> renders(#[trigger] cells@[c], row, c as u32),
{
    let mut cells: Vec<CellView> = Vec::new();
    let mut column: u32 = 0;
    while column < COLS
        invariant
            column <= COLS,
            cells@.len() == column,
            forall|c: int| 0 <= c < cells@.len() ==> renders(#[trigger] cells@[c], row, c as u32),
        decreases COLS - column,
    {
        cells.push(view_square(row, column));
        column = column + 1;
    }
    cells
}

/// In any rendered grid the identifiers are pairwise distinct: two
/// different positions never share an identifier.
pub proof fn lemma_rendered_ids_distinct(out: Rendered)
    requires
        out.rows@.len() == ROWS,
        forall|r: int| 0 <= r < out.rows@.len() ==> #[trigger] out.rows@[r]@.len() == COLS,
        forall|r: int, c: int|
            0 <= r < out.rows@.len() && 0 <= c < out.rows@[r]@.len()
                ==> renders(#[trigger] out.rows@[r]@[c], r as u32, c as u32),
    ensures
        forall|r1: int, c1: int, r2: int, c2: int|
            0 <= r1 < ROWS && 0 <= c1 < COLS && 0 <= r2 < ROWS && 0 <= c2 < COLS && !(r1 == r2 && c1
                == c2) ==> #[trigger] out.rows@[r1]@[c1].id@ != #[trigger] out.rows@[r2]@[c2].id@,
{
    assert forall|r1: int, c1: int, r2: int, c2: int|
        0 <= r1 < ROWS && 0 <= c1 < COLS && 0 <= r2 < ROWS && 0 <= c2 < COLS && !(r1 == r2 && c1
            == c2) implies #[trigger] out.rows@[r1]@[c1].id@ != #[trigger] out.rows@[r2]@[c2].id@ by {
        assert(renders(out.rows@[r1]@[c1], r1 as u32, c1 as u32));
        assert(renders(out.rows@[r2]@[c2], r2 as u32, c2 as u32));
        crate::ids::lemma_cell_ids_distinct(r1 as nat, c1 as nat, r2 as nat, c2 as nat);
    }
}

impl Model {
    /// Renders the whole document: the fixed heading and the table of
    /// `ROWS` rows of `COLS` cells, the cell at `(r, c)` tagged with
    /// the identifier of that position.
    pub fn view(&self) -> (out: Rendered)
        ensures
            out.heading@ == "TEST"@,
            out.rows@.len() == ROWS,
            forall|r: int| 0 <= r < out.rows@.len() ==> #[trigger] out.rows@[r]@.len() == COLS,
            forall|r: int, c: int|
                0 <= r < out.rows@.len() && 0 <= c < out.rows@[r]@.len()
                    ==> renders(#[trigger] out.rows@[r]@[c], r as u32, c as u32),
    {
        let heading = String::from_str("TEST");
        let mut rows: Vec<Vec<CellView>> = Vec::new();
        let mut row: u32 = 0;
        while row < ROWS
            invariant
                row <= ROWS,
                rows@.len() == row,
                forall|r: int| 0 <= r < rows@.len() ==> #[trigger] rows@[r]@.len() == COLS,
                forall|r: int, c: int|
                    0 <= r < rows@.len() && 0 <= c < rows@[r]@.len()
                        ==> renders(#[trigger] rows@[r]@[c], r as u32, c as u32),
            decreases ROWS - row,
        {
            rows.push(view_row(row));
            row = row + 1;
        }
        Rendered { heading, rows }
    }
}

} // verus!
