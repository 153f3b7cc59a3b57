//! The event dispatcher. A drag gesture is a two-state machine:
//! idle (no payload) and dragging (payload set). Drag-begin stores the
//! dragged element's identifier as the payload; drop consumes the
//! payload and, when everything resolves, re-parents the named node
//! into the drop target. Events whose target does not resolve, and
//! drops whose payload names no node, leave the document untouched.

use crate::dom::Cell;
use crate::dom::Document;
use crate::ids::dec_spec;
use vstd::prelude::*;

verus! {

/// A drag-begin event, reduced to what the handler reads from it:
/// the identifier of the dragged element, or `None` when the event
/// has no resolvable target.
#[derive(Debug)]
pub struct DragBeginEvent {
    pub target_id: Option<String>,
}

/// A drag-over event. The handler reads nothing from it; its only
/// job is to have the default reject-drop behavior suppressed.
#[derive(Debug)]
pub struct DragOverEvent {}

/// A drop event, reduced to what the handler reads from it: the cell
/// dropped on, or `None` when the target does not resolve to a valid
/// container.
#[derive(Debug)]
pub struct DropEvent {
    pub target: Option<Cell>,
}

/// The messages the dispatcher handles.
#[derive(Debug)]
pub enum Msg {
    /// Pointer coordinates to write to the diagnostic log.
    DragStart(u32, u32),
    /// A drag gesture begins on a draggable element.
    Drag(DragBeginEvent),
    /// A cell is hovered during a drag.
    AllowDrop(DragOverEvent),
    /// The dragged element is released over a cell.
    DoDrop(DropEvent),
}

/// What the dispatcher asks the host to do, beyond its own state
/// change: write a log line, suppress the event's default behavior,
/// re-render.
#[derive(Debug)]
pub struct Effects {
    pub log: Option<String>,
    pub prevent_default: bool,
    pub should_render: bool,
}

/// The diagnostic line for a drag start at `(x, y)`: the two
/// coordinates in decimal, separated by one space.
pub open spec fn log_line_spec(x: u32, y: u32) -> Seq<char> {
    dec_spec(x as nat) + seq![' '] + dec_spec(y as nat)
}

/// The application state: the document and the gesture state. The
/// payload is `None` when idle and holds the dragged element's
/// identifier while a gesture is active.
#[derive(Debug)]
pub struct Model {
    pub doc: Document,
    pub payload: Option<String>,
}

impl Model {
    /// The state is well formed: the document is.
    pub open spec fn wf(self) -> bool {
        self.doc.wf()
    }

    /// Builds the starting state: the initial document and no active
    /// gesture.
    pub fn create() -> (m: Model)
        ensures
            m.wf(),
            m.payload is None,
            m.doc.nodes@.len() == crate::ROWS * crate::COLS,
            forall|k: int|
                0 <= k < m.doc.nodes@.len() ==> #[trigger] Document::home_node(m.doc.nodes@[k], k),
    {
        Model { doc: Document::initial(), payload: None }
    }

    /// Handles one message.
    ///
    /// Drag-start only logs. Drag-begin stores the target's
    /// identifier as the payload when the target resolves, and is a
    /// no-op otherwise. Drag-over only suppresses the default
    /// behavior. Drop suppresses the default behavior, consumes the
    /// payload, and re-parents the node named by the payload into the
    /// target cell; when there is no active payload, no resolvable
    /// target, or no node with that identifier, the document is left
    /// unchanged.
    pub fn update(&mut self, msg: Msg) -> (eff: Effects)
        requires
            old(self).wf(),
        ensures
            final(self).wf(),
            eff.should_render,
            final(self).doc.nodes@.len() == old(self).doc.nodes@.len(),
            forall|j: int|
                0 <= j < old(self).doc.nodes@.len()
                    ==> #[trigger] final(self).doc.nodes@[j].id@ == old(self).doc.nodes@[j].id@,
            match msg {
                Msg::DragStart(x, y) => {
                    &&& final(self).doc == old(self).doc
                    &&& final(self).payload == old(self).payload
                    &&& (eff.log matches Some(l) && l@ == log_line_spec(x, y))
                    &&& !eff.prevent_default
                },
                Msg::Drag(ev) => {
                    &&& final(self).doc == old(self).doc
                    &&& eff.log is None
                    &&& !eff.prevent_default
                    &&& match ev.target_id {
                        Some(id) => final(self).payload == Some(id),
                        None => final(self).payload == old(self).payload,
                    }
                },
                Msg::AllowDrop(ev) => {
                    &&& final(self).doc == old(self).doc
                    &&& final(self).payload == old(self).payload
                    &&& eff.log is None
                    &&& eff.prevent_default
                },
                Msg::DoDrop(ev) => {
                    &&& eff.log is None
                    &&& eff.prevent_default
                    &&& final(self).payload is None
                    &&& match (old(self).payload, ev.target) {
                        (Some(p), Some(cell)) => {
                            &&& cell.wf() ==> forall|j: int|
                                0 <= j < old(self).doc.nodes@.len() && old(
                                    self,
                                ).doc.nodes@[j].id@ == p@
                                    ==> #[trigger] final(self).doc.nodes@[j].parent == cell
                            &&& forall|j: int|
                                0 <= j < old(self).doc.nodes@.len() && old(
                                    self,
                                ).doc.nodes@[j].id@ != p@
                                    ==> #[trigger] final(self).doc.nodes@[j].parent == old(
                                    self,
                                ).doc.nodes@[j].parent
                            &&& !cell.wf() ==> final(self).doc == old(self).doc
                        },
                        _ => final(self).doc == old(self).doc,
                    }
                },
            },
    {
        match msg {
            Msg::DragStart(x, y) => {
                let mut l = crate::ids::u32_to_decimal(x);
                proof {
                    reveal_strlit(" ");
                    assert(" "@ =~= seq![' ']);
                }
                l.append(" ");
                let y_dec = crate::ids::u32_to_decimal(y);
                l.append(y_dec.as_str());
                proof {
                    assert(l@ =~= log_line_spec(x, y));
                }
                Effects { log: Some(l), prevent_default: false, should_render: true }
            },
            Msg::Drag(ev) => {
                match ev.target_id {
                    Some(id) => {
                        self.payload = Some(id);
                    },
                    None => {},
                }
                Effects { log: None, prevent_default: false, should_render: true }
            },
            Msg::AllowDrop(_ev) => {
                Effects { log: None, prevent_default: true, should_render: true }
            },
            Msg::DoDrop(ev) => {
                match ev.target {
                    Some(cell) => {
                        if cell.row < crate::ROWS && cell.col < crate::COLS {
                            let payload = match &self.payload {
                                Some(p) => Some(p.clone()),
                                None => None,
                            };
                            match payload {
                                Some(p) => {
                                    match self.doc.find_node(&p) {
                                        Some(i) => {
                                            self.doc.reparent(i, cell);
                                        },
                                        None => {},
                                    }
                                },
                                None => {},
                            }
                        }
                    },
                    None => {},
                }
                self.payload = None;
                Effects { log: None, prevent_default: true, should_render: true }
            },
        }
    }
}

} // verus!
