use kanyu_shell::attrtable::{
    AttrAction, CalcState, FieldOp, NumberRead,
    cell_text, field_names, infer_field_types, row_matches, texts_match, visible_rows, AttrTablePanel, Cell,
};

type Props = Vec<(String, Cell)>;

fn feat(props: Vec<(&str, Cell)>) -> Option<Props> {
    Some(props.into_iter().map(|(k, v)| (k.to_string(), v)).collect())
}

/// Three features as the application hands them over: properties in key
/// order (a JSON object's keys are kept sorted), numbers with their JSON text.
fn coll() -> Vec<Option<Props>> {
    vec![
        feat(vec![("h", Cell::Number("30.0".to_string())), ("name", Cell::Text("甲".to_string()))]),
        feat(vec![("h", Cell::Number("10.0".to_string())), ("name", Cell::Text("乙".to_string()))]),
        feat(vec![("name", Cell::Text("丙".to_string()))]),
    ]
}

#[test]
fn field_names_ordered_dedup() {
    assert_eq!(field_names(&coll()), vec!["h", "name"]);
}

#[test]
fn field_names_first_seen_order() {
    let rows = vec![
        feat(vec![("b", Cell::Null)]),
        None,
        feat(vec![("a", Cell::Bool(true)), ("b", Cell::Null), ("c", Cell::Null)]),
    ];
    assert_eq!(field_names(&rows), vec!["b", "a", "c"]);
    assert!(field_names(&vec![]).is_empty());
}

#[test]
fn row_filter_substring() {
    let c = coll();
    assert!(row_matches(c[0].as_ref(), "甲"));
    assert!(row_matches(c[0].as_ref(), "30"));
    assert!(!row_matches(c[2].as_ref(), "30"));
    assert!(row_matches(c[2].as_ref(), ""));
}

#[test]
fn row_filter_is_case_insensitive() {
    let row = feat(vec![("n", Cell::Text("Main Street".to_string())), ("ok", Cell::Bool(true))]);
    assert!(row_matches(row.as_ref(), "main"));
    assert!(row_matches(row.as_ref(), "true"));
    assert!(!row_matches(row.as_ref(), "Main"));
    assert!(!row_matches(None, "x"));
    assert!(row_matches(None, ""));
}

#[test]
fn infer_types() {
    let kinds = infer_field_types(&coll());
    assert_eq!(kinds[0], ("h".to_string(), "数值".to_string()));
    assert_eq!(kinds[1], ("name".to_string(), "文本".to_string()));
}

#[test]
fn infer_types_skips_nulls_and_stops_at_200() {
    let mut rows: Vec<Option<Props>> = Vec::new();
    rows.push(feat(vec![("x", Cell::Null), ("y", Cell::Other("[1]".to_string()))]));
    rows.push(feat(vec![("x", Cell::Bool(false))]));
    let kinds = infer_field_types(&rows);
    assert_eq!(kinds, vec![("x".to_string(), "布尔".to_string()), ("y".to_string(), "其他".to_string())]);
    let mut late: Vec<Option<Props>> = (0..200).map(|_| feat(vec![("z", Cell::Null)])).collect();
    late.push(feat(vec![("z", Cell::Number("1".to_string()))]));
    assert_eq!(infer_field_types(&late), vec![("z".to_string(), "未知".to_string())]);
}

#[test]
fn cell_texts() {
    assert_eq!(cell_text(None), "");
    assert_eq!(cell_text(Some(&Cell::Null)), "");
    assert_eq!(cell_text(Some(&Cell::Bool(true))), "true");
    assert_eq!(cell_text(Some(&Cell::Number("1.5".to_string()))), "1.5");
    assert_eq!(cell_text(Some(&Cell::Other("{\"a\":1}".to_string()))), "{\"a\":1}");
}

#[test]
fn visible_rows_filter_then_order() {
    let keep = vec![true, false, true, true];
    assert_eq!(visible_rows(&keep, None), vec![0, 2, 3]);
    let order = vec![3, 1, 0, 2, 9];
    assert_eq!(visible_rows(&keep, Some(&order)), vec![3, 0, 2]);
}

#[test]
fn header_clicks_cycle_the_sort() {
    let mut p = AttrTablePanel::default();
    p.set_layer("a".to_string());
    p.click_header("h");
    assert_eq!(p.sort, Some(("h".to_string(), true)));
    assert_eq!(p.sel_col.as_deref(), Some("h"));
    p.click_header("h");
    assert_eq!(p.sort, Some(("h".to_string(), false)));
    p.click_header("h");
    assert_eq!(p.sort, None);
    p.click_header("h");
    p.click_header("name");
    assert_eq!(p.sort, Some(("name".to_string(), true)));
    // Same layer again keeps the sort; another layer resets it.
    p.set_layer("a".to_string());
    assert!(p.sort.is_some());
    p.set_layer("b".to_string());
    assert_eq!(p.layer(), Some("b"));
    assert!(p.sort.is_none() && p.sel_col.is_none());
}

#[test]
fn demo_calc_opens_the_calculator() {
    let mut p = AttrTablePanel::default();
    p.demo_open_calc(Ok(vec!["105.0".to_string()]));
    let c = p.calc_dlg.as_ref().unwrap();
    assert_eq!(c.target, "楼高米");
    assert_eq!(c.expr, "height * 3.5");
    assert_eq!(c.preview.as_ref().unwrap().as_ref().unwrap(), &vec!["105.0".to_string()]);
}

#[test]
fn height_field_first_numeric() {
    let rows = vec![feat(vec![
        ("height", Cell::Number("88.5".to_string())),
        ("name", Cell::Text("甲".to_string())),
    ])];
    assert_eq!(kanyu_shell::scene::height_field(&rows).as_deref(), Some("height"));
    let empty: Vec<Option<Props>> = Vec::new();
    assert!(kanyu_shell::scene::height_field(&empty).is_none());
}

#[test]
fn height_field_scans_features_in_order() {
    let rows = vec![
        None,
        feat(vec![("a", Cell::Text("x".to_string())), ("b", Cell::Null)]),
        feat(vec![("a", Cell::Bool(true)), ("c", Cell::Number("2".to_string()))]),
        feat(vec![("d", Cell::Number("1".to_string()))]),
    ];
    assert_eq!(kanyu_shell::scene::height_field(&rows).as_deref(), Some("c"));
}

#[test]
fn texts_match_over_lowered_values() {
    let lowered = vec![String::from("main street"), String::from("12")];
    assert!(texts_match(&lowered, "street"));
    assert!(texts_match(&lowered, "1"));
    assert!(!texts_match(&lowered, "Main"));
    assert!(texts_match(&lowered, ""));
    assert!(!texts_match(&Vec::new(), "a"));
}

fn panel_on(layer: &str) -> AttrTablePanel {
    let mut p = AttrTablePanel::default();
    p.set_layer(layer.to_string());
    p
}

fn add_dialog(name: &str, kind: &str, default: &str) -> kanyu_shell::attrtable::AddFieldState {
    kanyu_shell::attrtable::AddFieldState {
        name: name.to_string(),
        kind: kind.to_string(),
        default: default.to_string(),
        err: None,
    }
}

#[test]
fn add_field_dialog_outcomes() {
    let mut p = panel_on("roads");
    p.add_dlg = Some(add_dialog("  容积率 ", "数值", " 2.5 "));
    match p.confirm_add_field(NumberRead::Finite) {
        Some(AttrAction::Apply { layer, op: FieldOp::Add { name, default } }) => {
            assert_eq!(layer, "roads");
            assert_eq!(name, "容积率");
            assert!(matches!(default, Some(Cell::Number(t)) if t == "2.5"));
        }
        _ => panic!("expected an added field"),
    }
    assert!(p.add_dlg.is_none());

    p.add_dlg = Some(add_dialog("x", "数值", "abc"));
    assert!(p.confirm_add_field(NumberRead::Invalid).is_none());
    assert_eq!(p.add_dlg.as_ref().unwrap().err.as_deref(), Some("默认值须为数值: abc"));

    p.add_dlg = Some(add_dialog("", "布尔", "也许"));
    assert!(p.confirm_add_field(NumberRead::Invalid).is_none());
    assert_eq!(p.add_dlg.as_ref().unwrap().err.as_deref(), Some("默认值须为 是/否: 也许"));

    p.add_dlg = Some(add_dialog("  ", "文本", ""));
    assert!(p.confirm_add_field(NumberRead::Invalid).is_none());
    assert_eq!(p.add_dlg.as_ref().unwrap().err.as_deref(), Some("字段名不能为空"));

    p.add_dlg = Some(add_dialog("ok", "布尔", "是"));
    match p.confirm_add_field(NumberRead::Invalid) {
        Some(AttrAction::Apply { op: FieldOp::Add { default, .. }, .. }) => {
            assert!(matches!(default, Some(Cell::Bool(true))))
        }
        _ => panic!("expected an added field"),
    }

    p.add_dlg = Some(add_dialog("n", "数值", "inf"));
    match p.confirm_add_field(NumberRead::NotFinite) {
        Some(AttrAction::Apply { op: FieldOp::Add { default, .. }, .. }) => assert!(default.is_none()),
        _ => panic!("expected an added field"),
    }

    p.add_dlg = Some(add_dialog("t", "文本", " a b "));
    match p.confirm_add_field(NumberRead::Invalid) {
        Some(AttrAction::Apply { op: FieldOp::Add { default, .. }, .. }) => {
            assert!(matches!(default, Some(Cell::Text(t)) if t == " a b "))
        }
        _ => panic!("expected an added field"),
    }

    let mut none = AttrTablePanel::default();
    none.add_dlg = Some(add_dialog("x", "文本", ""));
    assert!(none.confirm_add_field(NumberRead::Finite).is_none());
    assert!(none.add_dlg.is_some());
}

#[test]
fn rename_calc_and_cell_edit() {
    let mut p = panel_on("blocks");
    p.rename_dlg = Some(("old".to_string(), "  new ".to_string()));
    match p.confirm_rename() {
        Some(AttrAction::Apply { op: FieldOp::Rename { old, new }, .. }) => {
            assert_eq!(old, "old");
            assert_eq!(new, "new");
        }
        _ => panic!("expected a rename"),
    }
    assert!(p.rename_dlg.is_none());
    p.rename_dlg = Some(("old".to_string(), "   ".to_string()));
    assert!(p.confirm_rename().is_none());
    assert!(p.rename_dlg.is_none());

    p.calc_dlg = Some(CalcState { target: " h2 ".into(), expr: " h * 2".into(), preview: None });
    match p.apply_calc() {
        Some(AttrAction::Apply { layer, op: FieldOp::Calc { target, expr } }) => {
            assert_eq!(layer, "blocks");
            assert_eq!(target, "h2");
            assert_eq!(expr, " h * 2");
        }
        _ => panic!("expected a calculation"),
    }
    assert!(p.calc_dlg.is_none());
    p.calc_dlg = Some(CalcState { target: "h2".into(), expr: "  ".into(), preview: None });
    assert!(p.apply_calc().is_none());
    match &p.calc_dlg {
        Some(CalcState { preview: Some(Err(m)), .. }) => assert_eq!(m, "目标字段与表达式均不能为空"),
        _ => panic!("calculator should stay open"),
    }

    p.begin_cell_edit(3, "name".into(), "甲".into());
    p.cell_edit.as_mut().unwrap().text = "乙".into();
    match p.commit_cell_edit() {
        Some(AttrAction::EditCell { layer, feature, field, text }) => {
            assert_eq!((layer.as_str(), feature, field.as_str(), text.as_str()), ("blocks", 3, "name", "乙"));
        }
        _ => panic!("expected a cell edit"),
    }
    assert!(p.cell_edit.is_none());
    assert!(p.commit_cell_edit().is_none());
}

#[test]
fn toolbar_and_header_menu() {
    let mut p = panel_on("parcels");
    assert!(p.toolbar_delete(true).is_none());
    p.toolbar_rename(true);
    assert!(p.rename_dlg.is_none());
    p.click_header("area");
    assert!(p.toolbar_delete(false).is_none());
    match p.toolbar_delete(true) {
        Some(AttrAction::Apply { layer, op: FieldOp::Delete { name } }) => {
            assert_eq!(layer, "parcels");
            assert_eq!(name, "area");
        }
        _ => panic!("expected a delete"),
    }
    p.toolbar_rename(false);
    assert!(p.rename_dlg.is_none());
    p.toolbar_rename(true);
    assert_eq!(p.rename_dlg, Some(("area".to_string(), String::new())));
    p.open_add_field(false);
    assert!(p.add_dlg.is_none());
    p.open_add_field(true);
    assert!(p.add_dlg.is_some());
    p.open_calc(true);
    assert!(p.calc_dlg.as_ref().unwrap().preview.is_none());
    let none = AttrTablePanel::default();
    assert!(none.delete_field("x".into()).is_none());
}

#[test]
fn filter_key_trims_and_lowercases() {
    let mut p = AttrTablePanel::default();
    p.filter = "  Main Street ".to_string();
    assert_eq!(p.filter_key(), "main street");
    let row = feat(vec![("name", Cell::Text("Main Street 12".into()))]);
    assert!(row_matches(row.as_ref(), &p.filter_key()));
}
