use drag_grid::ids::cell_id;
use drag_grid::ids::u32_to_decimal;
use drag_grid::model::Model;
use drag_grid::COLS;
use drag_grid::ROWS;

#[test]
fn decimal_rendering_exact() {
    assert_eq!(u32_to_decimal(0), "0");
    assert_eq!(u32_to_decimal(7), "7");
    assert_eq!(u32_to_decimal(10), "10");
    assert_eq!(u32_to_decimal(42), "42");
    assert_eq!(u32_to_decimal(4294967295), "4294967295");
}

#[test]
fn cell_id_exact() {
    assert_eq!(cell_id(0, 0), "drag00");
    assert_eq!(cell_id(2, 3), "drag23");
    assert_eq!(cell_id(4, 9), "drag49");
}

#[test]
fn rendered_grid_shape_and_heading() {
    let m = Model::create();
    let out = m.view();
    assert_eq!(out.heading, "TEST");
    assert_eq!(out.rows.len(), ROWS as usize);
    for row in &out.rows {
        assert_eq!(row.len(), COLS as usize);
    }
}

#[test]
fn rendered_identifiers_match_positions() {
    let m = Model::create();
    let out = m.view();
    for r in 0..ROWS as usize {
        for c in 0..COLS as usize {
            let cv = &out.rows[r][c];
            assert_eq!(cv.id, format!("drag{}{}", r, c));
            assert!(cv.draggable);
        }
    }
}

#[test]
fn rendered_identifiers_pairwise_distinct() {
    let m = Model::create();
    let out = m.view();
    let mut ids: Vec<String> = Vec::new();
    for row in &out.rows {
        for cv in row {
            ids.push(cv.id.clone());
        }
    }
    assert_eq!(ids.len(), 50);
    for i in 0..ids.len() {
        for j in 0..ids.len() {
            if i != j {
                assert_ne!(ids[i], ids[j]);
            }
        }
    }
}

#[test]
fn rendered_labels_name_column_then_row() {
    let m = Model::create();
    let out = m.view();
    assert_eq!(out.rows[2][3].label, "cell 3 2");
    assert_eq!(out.rows[0][0].label, "cell 0 0");
    assert_eq!(out.rows[4][9].label, "cell 9 4");
}
