//! A model of the document tree as far as the dispatcher reads it:
//! a flat collection of nodes, each carrying its identifier and the
//! cell that currently contains it. A node has exactly one parent, so
//! moving it to a new cell removes it from the old one by construction.

use crate::ids::cell_id;
use crate::ids::cell_id_spec;
use crate::ids::lemma_cell_ids_distinct;
use crate::COLS;
use crate::ROWS;
use vstd::prelude::*;

verus! {

/// A drop target: one cell of the grid, named by its position.
#[derive(Clone, Copy, PartialEq, Eq, Structural, Debug)]
pub struct Cell {
    pub row: u32,
    pub col: u32,
}

impl Cell {
    /// The cell lies within the grid.
    pub open spec fn wf(self) -> bool {
        self.row < ROWS && self.col < COLS
    }
}

/// One draggable node: its identifier and the cell that contains it.
#[derive(Debug)]
pub struct Node {
    pub id: String,
    pub parent: Cell,
}

/// The document: every draggable node, each inside exactly one cell.
#[derive(Debug)]
pub struct Document {
    pub nodes: Vec<Node>,
}

impl Document {
    /// No two nodes share an identifier, and every node sits in a
    /// cell of the grid.
    pub open spec fn wf(self) -> bool {
        &&& forall|i: int, j: int|
            0 <= i < self.nodes@.len() && 0 <= j < self.nodes@.len() && i != j
                ==> #[trigger] self.nodes@[i].id@ != #[trigger] self.nodes@[j].id@
        &&& forall|i: int| 0 <= i < self.nodes@.len() ==> (#[trigger] self.nodes@[i].parent).wf()
    }

    /// The node at position `k` of the initial document: the element
    /// of cell `(k / COLS, k % COLS)`, sitting in that same cell.
    pub open spec fn home_node(n: Node, k: int) -> bool {
        &&& n.id@ == cell_id_spec((k / (COLS as int)) as nat, (k % (COLS as int)) as nat)
        &&& n.parent == (Cell { row: (k / (COLS as int)) as u32, col: (k % (COLS as int)) as u32 })
    }

    /// Builds the initial document: one node per grid cell, each in
    /// its home cell, in row-major order.
    pub fn initial() -> (d: Document)
        ensures
            d.wf(),
            d.nodes@.len() == ROWS * COLS,
            forall|k: int| 0 <= k < d.nodes@.len() ==> #[trigger] Self::home_node(d.nodes@[k], k),
    {
        let mut nodes: Vec<Node> = Vec::new();
        let mut r: u32 = 0;
        while r < ROWS
            invariant
                r <= ROWS,
                nodes@.len() == r * COLS,
                forall|k: int| 0 <= k < nodes@.len() ==> #[trigger] Self::home_node(nodes@[k], k),
            decreases ROWS - r,
        {
            let mut c: u32 = 0;
            while c < COLS
                invariant
                    r < ROWS,
                    c <= COLS,
                    nodes@.len() == r * COLS + c,
                    forall|k: int| 0 <= k < nodes@.len() ==> #[trigger] Self::home_node(nodes@[k], k),
                decreases COLS - c,
            {
                let id = cell_id(r, c);
                let ghost k = nodes@.len() as int;
                nodes.push(Node { id, parent: Cell { row: r, col: c } });
                proof {
                    assert(k == r * (COLS as int) + c);
                    assert(k / (COLS as int) == r as int) by (nonlinear_arith)
                        requires
                            k == r * (COLS as int) + c,
                            0 <= c < COLS as int,
                            COLS == 10,
                    ;
                    assert(k % (COLS as int) == c as int) by (nonlinear_arith)
                        requires
                            k == r * (COLS as int) + c,
                            0 <= c < COLS as int,
                            COLS == 10,
                    ;
                    assert(Self::home_node(nodes@[k], k));
                }
                c = c + 1;
            }
            r = r + 1;
        }
        let d = Document { nodes };
        proof {
            assert forall|i: int, j: int|
                0 <= i < d.nodes@.len() && 0 <= j < d.nodes@.len() && i != j implies #[trigger] d
                .nodes@[i].id@ != #[trigger] d.nodes@[j].id@ by {
                let ci = COLS as int;
                assert(Self::home_node(d.nodes@[i], i));
                assert(Self::home_node(d.nodes@[j], j));
                assert(i == (i / ci) * ci + i % ci);
                assert(j == (j / ci) * ci + j % ci);
                lemma_cell_ids_distinct(
                    (i / ci) as nat,
                    (i % ci) as nat,
                    (j / ci) as nat,
                    (j % ci) as nat,
                );
            }
            assert forall|i: int| 0 <= i < d.nodes@.len() implies (#[trigger] d.nodes@[i].parent).wf() by {
                assert(Self::home_node(d.nodes@[i], i));
            }
        }
        d
    }

    /// Looks a node up by identifier, as the drop handler does.
    /// Returns `Some` exactly when some node carries that identifier.
    pub fn find_node(&self, id: &String) -> (r: Option<usize>)
        ensures
            match r {
                Some(i) => i < self.nodes@.len() && self.nodes@[i as int].id@ == id@,
                None => forall|j: int| 0 <= j < self.nodes@.len() ==> #[trigger] self.nodes@[j].id@ != id@,
            },
    {
        let mut k: usize = 0;
        while k < self.nodes.len()
            invariant
                k <= self.nodes@.len(),
                forall|j: int| 0 <= j < k ==> #[trigger] self.nodes@[j].id@ != id@,
            decreases self.nodes@.len() - k,
        {
            if self.nodes[k].id == *id {
                return Some(k);
            }
            k = k + 1;
        }
        None
    }

    /// In a well-formed document an identifier names at most one
    /// node: a drop relocates that exact node and cannot duplicate it.
    pub proof fn lemma_id_unique(self, i: int, j: int)
        requires
            self.wf(),
            0 <= i < self.nodes@.len(),
            0 <= j < self.nodes@.len(),
            self.nodes@[i].id@ == self.nodes@[j].id@,
        ensures
            i == j,
    {
    }

    /// Moves the node at index `i` into `target`: the node keeps its
    /// identifier, every other node is untouched, and the node's old
    /// parent no longer contains it, since `parent` is its one parent.
    pub fn reparent(&mut self, i: usize, target: Cell)
        requires
            i < old(self).nodes@.len(),
        ensures
            final(self).nodes@.len() == old(self).nodes@.len(),
            forall|j: int|
                0 <= j < old(self).nodes@.len()
                    ==> #[trigger] final(self).nodes@[j].id@ == old(self).nodes@[j].id@,
            forall|j: int|
                0 <= j < old(self).nodes@.len() && j != i
                    ==> #[trigger] final(self).nodes@[j].parent == old(self).nodes@[j].parent,
            final(self).nodes@[i as int].parent == target,
    {
        let id = self.nodes[i].id.clone();
        self.nodes[i] = Node { id, parent: target };
    }
}

} // verus!
