use kanyu_shell::dialogs::{
    export_format, parse_scale, EstateMapKind, EstateMapState, ESTATE_MAP_KINDS,
};

#[test]
fn estate_map_parse_scale() {
    assert_eq!(parse_scale("").unwrap(), None);
    assert_eq!(parse_scale("   ").unwrap(), None);
    assert_eq!(parse_scale("500").unwrap(), Some(500));
    assert_eq!(parse_scale(" 1000 ").unwrap(), Some(1000));
    assert!(parse_scale("abc").is_err());
    assert!(parse_scale("0").is_err());
    assert!(parse_scale("-100").is_err());
    assert!(parse_scale("12.5").is_err());
}

#[test]
fn parse_scale_limits_and_message() {
    assert_eq!(parse_scale("+250").unwrap(), Some(250));
    assert_eq!(parse_scale("4294967295").unwrap(), Some(u32::MAX));
    assert!(parse_scale("4294967296").is_err());
    assert_eq!(parse_scale(" x1 ").unwrap_err(), "比例尺分母须为正整数（留空自动整百）: x1");
}

#[test]
fn estate_map_state_defaults() {
    let st = EstateMapState::default();
    assert_eq!(st.kind, ESTATE_MAP_KINDS[0]);
    assert_eq!(st.dpi, "150");
    assert!(!st.is_sketch());
    assert!(!st.is_ownership());
    let sketch = EstateMapState { kind: ESTATE_MAP_KINDS[2].to_string(), ..Default::default() };
    assert!(sketch.is_sketch());
    let ownership = EstateMapState { kind: ESTATE_MAP_KINDS[1].to_string(), ..Default::default() };
    assert!(ownership.is_ownership());
}

#[test]
fn estate_map_kinds_nine() {
    assert_eq!(ESTATE_MAP_KINDS.len(), 9);
    assert!(ESTATE_MAP_KINDS.iter().all(|k| !k.is_empty()));
    for label in ESTATE_MAP_KINDS {
        assert!(EstateMapKind::from_label(label).is_some(), "未映射: {label}");
    }
    assert!(EstateMapKind::from_label("不存在的图种").is_none());
    assert_eq!(EstateMapKind::from_label(ESTATE_MAP_KINDS[0]), Some(EstateMapKind::ParcelUseRight));
    assert_eq!(EstateMapKind::from_label(ESTATE_MAP_KINDS[8]), Some(EstateMapKind::IslandFacility));
}

#[test]
fn estate_labels_map_to_distinct_kinds() {
    let kinds: Vec<EstateMapKind> =
        ESTATE_MAP_KINDS.iter().map(|l| EstateMapKind::from_label(l).unwrap()).collect();
    for i in 0..kinds.len() {
        for j in (i + 1)..kinds.len() {
            assert_ne!(kinds[i], kinds[j]);
        }
    }
}

#[test]
fn export_format_takes_extension() {
    assert_eq!(export_format("out/a.b.geojson"), "geojson");
    assert_eq!(export_format("noext"), "noext");
    assert_eq!(export_format("dir.v2/file."), "");
}

use kanyu_shell::dialogs::{
    BufferState, DialogKind, DialogResult, Dialogs, ExportState, QueryState,
};

#[test]
fn confirm_turns_a_form_into_a_request() {
    let mut d = Dialogs::default();
    assert!(d.confirm(DialogKind::Query).is_none());
    d.query = Some(QueryState { layer: "b".to_string(), expr: "h > 5".to_string() });
    match d.confirm(DialogKind::Query) {
        Some(DialogResult::Query { layer, expr }) => {
            assert_eq!(layer, "b");
            assert_eq!(expr, "h > 5");
        }
        other => panic!("{other:?}"),
    }
    assert!(d.query.is_none());
    d.export = Some(ExportState { layer: "b".to_string(), out: "x/out.fgb".to_string() });
    match d.confirm(DialogKind::Export) {
        Some(DialogResult::Export { fmt, out, .. }) => {
            assert_eq!(fmt, "fgb");
            assert_eq!(out, "x/out.fgb");
        }
        other => panic!("{other:?}"),
    }
    d.export = Some(ExportState::default());
    d.cancel(DialogKind::Export);
    assert!(d.export.is_none());
}

#[test]
fn buffer_and_estate_forms_check_their_numbers() {
    let mut d = Dialogs::default();
    d.buffer = Some(BufferState { layer: "roads".to_string(), distance: " 2x ".to_string() });
    assert!(d.confirm(DialogKind::Buffer).is_none());
    match d.confirm_buffer(false) {
        Some(DialogResult::Invalid { reason }) => assert_eq!(reason, "距离须为非零数值:  2x "),
        other => panic!("{other:?}"),
    }
    assert!(d.buffer.is_some());
    d.buffer.as_mut().unwrap().distance = " 25 ".to_string();
    match d.confirm_buffer(true) {
        Some(DialogResult::Buffer { layer, distance }) => {
            assert_eq!(layer, "roads");
            assert_eq!(distance, "25");
        }
        other => panic!("{other:?}"),
    }
    assert!(d.buffer.is_none());
    d.estate_map = Some(EstateMapState {
        scale: "abc".to_string(),
        owner: "  张三 ".to_string(),
        ..Default::default()
    });
    match d.confirm_estate_map(Err("DPI 须为正数: x".to_string())) {
        Some(DialogResult::Invalid { reason }) => assert!(reason.starts_with("比例尺分母")),
        other => panic!("{other:?}"),
    }
    d.estate_map.as_mut().unwrap().scale = "500".to_string();
    match d.confirm_estate_map(Err("DPI 须为正数: x".to_string())) {
        Some(DialogResult::Invalid { reason }) => assert_eq!(reason, "DPI 须为正数: x"),
        other => panic!("{other:?}"),
    }
    match d.confirm_estate_map(Ok(())) {
        Some(DialogResult::EstateMap { owner, scale, dpi, kind, .. }) => {
            assert_eq!(owner, "张三");
            assert_eq!(scale, Some(500));
            assert_eq!(dpi, "150");
            assert_eq!(kind, ESTATE_MAP_KINDS[0]);
        }
        other => panic!("{other:?}"),
    }
    assert!(d.estate_map.is_none());
    assert!(d.confirm_estate_map(Ok(())).is_none());
}

#[test]
fn open_form_starts_blank_or_with_defaults() {
    let mut d = Dialogs::default();
    d.open_form(DialogKind::Reproject, "EPSG:3857");
    let r = d.reproject.as_ref().unwrap();
    assert_eq!((r.layer.as_str(), r.from.as_str(), r.to.as_str()), ("", "EPSG:4326", "EPSG:3857"));
    d.open_form(DialogKind::EstateMap, "");
    assert_eq!(d.estate_map.as_ref().unwrap().dpi, "150");
    d.open_form(DialogKind::Buffer, "");
    assert!(d.buffer.as_ref().unwrap().distance.is_empty());
    assert!(d.query.is_none());
    assert!(d.reproject.is_some());
}
