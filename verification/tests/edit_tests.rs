use kanyu_shell::edit::{draw_kind_of, tool_geometry_match, DrawKind, DrawState, EditTool, Sketch};

#[test]
fn draw_kind_mapping_and_tool_match() {
    assert_eq!(draw_kind_of(EditTool::AddLine), Some(DrawKind::Line));
    assert_eq!(draw_kind_of(EditTool::AddPolygon), Some(DrawKind::Polygon));
    assert_eq!(draw_kind_of(EditTool::AddHole), Some(DrawKind::Polygon));
    assert_eq!(draw_kind_of(EditTool::AddPoint), None);
    assert_eq!(draw_kind_of(EditTool::Select), None);
    assert!(tool_geometry_match(EditTool::AddPoint, &[]).is_ok());
    let pts = vec!["Point".to_string()];
    assert!(tool_geometry_match(EditTool::AddPoint, &pts).is_ok());
    let polys = vec!["MultiPolygon".to_string()];
    assert!(tool_geometry_match(EditTool::AddPolygon, &polys).is_ok());
    let e = tool_geometry_match(EditTool::AddPoint, &polys).unwrap_err();
    assert!(e.contains("仅适用于点图层"), "{e}");
    assert!(e.contains("MultiPolygon"), "{e}");
    let lines = vec!["LineString".to_string()];
    assert!(tool_geometry_match(EditTool::AddPolygon, &lines).is_err());
    assert!(tool_geometry_match(EditTool::AddLine, &lines).is_ok());
    assert!(tool_geometry_match(EditTool::Vertex, &polys).is_ok());
    assert!(tool_geometry_match(EditTool::AddHole, &polys).is_ok());
    assert!(tool_geometry_match(EditTool::AddHole, &lines).is_err());
}

#[test]
fn tool_mismatch_message_lists_types() {
    let mixed = vec!["Point".to_string(), "LineString".to_string()];
    assert!(tool_geometry_match(EditTool::AddLine, &mixed).is_ok());
    let e = tool_geometry_match(EditTool::AddPolygon, &mixed).unwrap_err();
    assert_eq!(
        e,
        format!(
            "「{}」工具仅适用于面图层（当前图层几何类型：Point/LineString）",
            EditTool::AddPolygon.label()
        )
    );
}

#[test]
fn draw_state_counts_and_undo() {
    let mut d: DrawState<(f64, f64)> = DrawState::new(DrawKind::Line);
    let e = d.check_finish().unwrap_err();
    assert!(e.contains("至少需要 2 个顶点"), "{e}");
    assert_eq!(e, "线要素至少需要 2 个顶点（当前 0 个）");
    d.add((0.0, 0.0));
    assert!(d.check_finish().is_err());
    d.add((1.0, 1.0));
    d.add((2.0, 0.0));
    assert!(d.undo());
    assert_eq!(d.verts.len(), 2);
    assert!(d.check_finish().is_ok());
    assert!(d.undo());
    assert!(d.undo());
    assert!(!d.undo());
    let mut p: DrawState<(f64, f64)> = DrawState::new(DrawKind::Polygon);
    p.add((0.0, 0.0));
    p.add((4.0, 0.0));
    assert!(p.check_finish().unwrap_err().contains("至少需要 3 个顶点"));
    p.add((4.0, 4.0));
    assert!(p.check_finish().is_ok());
}

#[test]
fn add_then_undo_restores_the_sketch() {
    let mut d: DrawState<(i32, i32)> = DrawState::new(DrawKind::Polygon);
    d.add((1, 2));
    let before = d.verts.clone();
    d.add((3, 4));
    assert!(d.undo());
    assert_eq!(d.verts, before);
}

fn closes(d: &DrawState<(f64, f64)>) -> bool {
    d.verts.first() == d.verts.last()
}

#[test]
fn draw_state_machine_line() {
    let mut d: DrawState<(f64, f64)> = DrawState::new(DrawKind::Line);
    assert!(d.finish(closes(&d)).err().unwrap().contains("至少需要 2 个顶点"));
    d.add((0.0, 0.0));
    assert!(d.finish(closes(&d)).is_err());
    d.add((1.0, 1.0));
    d.add((2.0, 0.0));
    assert!(d.undo());
    assert_eq!(d.verts.len(), 2);
    match d.finish(closes(&d)) {
        Ok(Sketch::Line(line)) => {
            assert_eq!(line.len(), 2);
            assert_eq!(line[0], (0.0, 0.0));
        }
        _ => panic!("expected a line"),
    }
    assert!(d.undo());
    assert!(d.undo());
    assert!(!d.undo());
}

#[test]
fn draw_state_machine_polygon_auto_close() {
    let mut d: DrawState<(f64, f64)> = DrawState::new(DrawKind::Polygon);
    d.add((0.0, 0.0));
    d.add((4.0, 0.0));
    assert!(d.finish(closes(&d)).err().unwrap().contains("至少需要 3 个顶点"));
    d.add((4.0, 4.0));
    match d.finish(closes(&d)) {
        Ok(Sketch::Polygon(ring)) => {
            assert_eq!(ring.len(), 4);
            assert_eq!(ring.first(), ring.last());
        }
        _ => panic!("expected a polygon"),
    }
    let mut d2: DrawState<(f64, f64)> = DrawState::new(DrawKind::Polygon);
    d2.add((0.0, 0.0));
    d2.add((4.0, 0.0));
    d2.add((0.0, 0.0));
    match d2.finish(closes(&d2)) {
        Ok(Sketch::Polygon(ring)) => assert_eq!(ring.len(), 3),
        _ => panic!("expected a polygon"),
    }
}
