use drag_grid::dom::Cell;
use drag_grid::model::DragBeginEvent;
use drag_grid::model::DragOverEvent;
use drag_grid::model::DropEvent;
use drag_grid::model::Model;
use drag_grid::model::Msg;

fn parent_of(m: &Model, id: &str) -> Cell {
    let owned = id.to_string();
    let i = m.doc.find_node(&owned).expect("node not found");
    m.doc.nodes[i].parent
}

#[test]
fn initial_document_has_every_node_home() {
    let m = Model::create();
    assert_eq!(m.doc.nodes.len(), 50);
    for r in 0..5u32 {
        for c in 0..10u32 {
            let id = format!("drag{}{}", r, c);
            assert_eq!(parent_of(&m, &id), Cell { row: r, col: c });
        }
    }
    assert!(m.payload.is_none());
}

#[test]
fn drag_start_logs_coordinates() {
    let mut m = Model::create();
    let eff = m.update(Msg::DragStart(12, 34));
    assert_eq!(eff.log, Some("12 34".to_string()));
    assert!(!eff.prevent_default);
    assert!(eff.should_render);
    assert!(m.payload.is_none());
}

#[test]
fn drag_begin_stores_payload() {
    let mut m = Model::create();
    let eff = m.update(Msg::Drag(DragBeginEvent { target_id: Some("drag00".to_string()) }));
    assert_eq!(m.payload, Some("drag00".to_string()));
    assert!(eff.log.is_none());
    assert!(eff.should_render);
}

#[test]
fn drag_begin_without_target_is_a_no_op() {
    let mut m = Model::create();
    let eff = m.update(Msg::Drag(DragBeginEvent { target_id: None }));
    assert!(m.payload.is_none());
    assert!(eff.should_render);
    assert_eq!(parent_of(&m, "drag00"), Cell { row: 0, col: 0 });
}

#[test]
fn drag_over_always_suppresses_default() {
    let mut m = Model::create();
    // while idle
    let eff = m.update(Msg::AllowDrop(DragOverEvent {}));
    assert!(eff.prevent_default);
    // during an active drag, over several cells
    m.update(Msg::Drag(DragBeginEvent { target_id: Some("drag00".to_string()) }));
    for _ in 0..3 {
        let eff = m.update(Msg::AllowDrop(DragOverEvent {}));
        assert!(eff.prevent_default);
        assert!(eff.should_render);
    }
    assert_eq!(m.payload, Some("drag00".to_string()));
}

#[test]
fn drop_relocates_the_dragged_node() {
    let mut m = Model::create();
    m.update(Msg::Drag(DragBeginEvent { target_id: Some("drag23".to_string()) }));
    let eff = m.update(Msg::DoDrop(DropEvent { target: Some(Cell { row: 4, col: 7 }) }));
    assert!(eff.prevent_default);
    // the named node now sits in the drop target and nowhere else
    assert_eq!(parent_of(&m, "drag23"), Cell { row: 4, col: 7 });
    assert_eq!(m.doc.nodes.len(), 50);
    // every other node kept its place
    for r in 0..5u32 {
        for c in 0..10u32 {
            if (r, c) != (2, 3) {
                let id = format!("drag{}{}", r, c);
                assert_eq!(parent_of(&m, &id), Cell { row: r, col: c });
            }
        }
    }
    // the payload is consumed: the gesture is over
    assert!(m.payload.is_none());
}

#[test]
fn drop_without_payload_is_a_graceful_no_op() {
    let mut m = Model::create();
    let eff = m.update(Msg::DoDrop(DropEvent { target: Some(Cell { row: 1, col: 1 }) }));
    assert!(eff.prevent_default);
    for r in 0..5u32 {
        for c in 0..10u32 {
            let id = format!("drag{}{}", r, c);
            assert_eq!(parent_of(&m, &id), Cell { row: r, col: c });
        }
    }
}

#[test]
fn drop_with_unknown_payload_is_a_graceful_no_op() {
    let mut m = Model::create();
    m.update(Msg::Drag(DragBeginEvent { target_id: Some("no-such-node".to_string()) }));
    let eff = m.update(Msg::DoDrop(DropEvent { target: Some(Cell { row: 1, col: 1 }) }));
    assert!(eff.prevent_default);
    assert!(m.payload.is_none());
    for r in 0..5u32 {
        for c in 0..10u32 {
            let id = format!("drag{}{}", r, c);
            assert_eq!(parent_of(&m, &id), Cell { row: r, col: c });
        }
    }
}

#[test]
fn drop_without_resolvable_target_is_a_graceful_no_op() {
    let mut m = Model::create();
    m.update(Msg::Drag(DragBeginEvent { target_id: Some("drag00".to_string()) }));
    let eff = m.update(Msg::DoDrop(DropEvent { target: None }));
    assert!(eff.prevent_default);
    assert!(m.payload.is_none());
    assert_eq!(parent_of(&m, "drag00"), Cell { row: 0, col: 0 });
}

#[test]
fn drop_outside_the_grid_is_a_graceful_no_op() {
    let mut m = Model::create();
    m.update(Msg::Drag(DragBeginEvent { target_id: Some("drag00".to_string()) }));
    let eff = m.update(Msg::DoDrop(DropEvent { target: Some(Cell { row: 9, col: 99 }) }));
    assert!(eff.prevent_default);
    assert!(m.payload.is_none());
    assert_eq!(parent_of(&m, "drag00"), Cell { row: 0, col: 0 });
}

#[test]
fn full_gesture_moves_drag00_into_cell_1_1() {
    let mut m = Model::create();
    // start a drag on the element drag00
    m.update(Msg::Drag(DragBeginEvent { target_id: Some("drag00".to_string()) }));
    // drag over cell (1, 1)
    let over = m.update(Msg::AllowDrop(DragOverEvent {}));
    assert!(over.prevent_default);
    // drop on cell (1, 1)
    m.update(Msg::DoDrop(DropEvent { target: Some(Cell { row: 1, col: 1 }) }));
    // drag00 is now a child of cell (1, 1) and no longer of cell (0, 0)
    assert_eq!(parent_of(&m, "drag00"), Cell { row: 1, col: 1 });
    assert_ne!(parent_of(&m, "drag00"), Cell { row: 0, col: 0 });
}
