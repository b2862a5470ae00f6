use kanyu_shell::layoutview::{layout_caption, LayoutDialogState, PageSize};
use kanyu_shell::panels::{export_layer_title, fields_line, format_line, geom_role, GeomRole};

#[test]
fn dialog_validate_and_spec() {
    let mut d = LayoutDialogState::default();
    assert!(d.validate().is_err());
    d.title = "  示范布局  ".into();
    assert!(d.validate().is_ok());
    let spec = d.to_spec();
    assert_eq!(spec.title, "示范布局");
    assert_eq!(spec.page, PageSize::A4Landscape);
    d.landscape = false;
    assert_eq!(d.to_spec().page, PageSize::A4Portrait);
}

#[test]
fn layout_dialog_keeps_choices() {
    let mut d = LayoutDialogState::default();
    assert!(d.legend && d.scalebar && d.north && d.landscape);
    d.title = "\t\n".into();
    assert_eq!(d.validate().unwrap_err(), "布局标题不能为空");
    d.title = "T".into();
    d.legend = false;
    let s = d.to_spec();
    assert!(!s.show_legend && s.show_scalebar && s.show_north);
}

#[test]
fn geom_color_by_dominant_type() {
    assert_eq!(geom_role(&["Polygon".to_string()]), GeomRole::Accent);
    assert_eq!(geom_role(&["LineString".to_string()]), GeomRole::Info);
    assert_eq!(geom_role(&["Point".to_string()]), GeomRole::AccentTertiary);
}

#[test]
fn geom_role_prefers_polygons_then_lines() {
    let mixed = vec!["Point".to_string(), "MultiLineString".to_string(), "MultiPolygon".to_string()];
    assert_eq!(geom_role(&mixed), GeomRole::Accent);
    assert_eq!(geom_role(&mixed[..2]), GeomRole::Info);
    assert_eq!(geom_role(&[]), GeomRole::AccentTertiary);
}

#[test]
fn expanded_layer_lines() {
    let few: Vec<String> = ["a", "b"].iter().map(|s| s.to_string()).collect();
    assert_eq!(fields_line(&few), "字段: a · b");
    let many: Vec<String> = (1..=10).map(|i| format!("f{i}")).collect();
    assert_eq!(fields_line(&many), "字段: f1 · f2 · f3 · f4 · f5 · f6 · f7 · f8 …(+2)");
    assert_eq!(fields_line(&vec![]), "字段: ");
    assert_eq!(format_line("geojson", 4), "格式: geojson · 4 要素");
}

#[test]
fn export_item_uses_registry_title() {
    let title = export_layer_title();
    assert_eq!(title, kanyu_shell::commands::find("export_layer").unwrap().title);
}

use kanyu_shell::panels::{layer_info_line, skill_list_lines, LayerView, SkillView};

#[test]
fn layer_and_skill_lines() {
    let lv = LayerView {
        id: "roads".to_string(),
        file_name: "roads.shp".to_string(),
        format: "shp".to_string(),
        feature_count: 12,
        geometry_types: vec!["LineString".to_string(), "MultiLineString".to_string()],
        fields: vec!["name".to_string(), "lanes".to_string()],
        visible: true,
        expanded: false,
        sym_classes: vec![([1, 2, 3], "主干".to_string())],
    };
    assert_eq!(
        layer_info_line(&lv),
        "图层 roads: 12 要素 | 几何 LineString, MultiLineString | 字段 [name, lanes]"
    );
    assert_eq!(skill_list_lines(&vec![]), vec!["（无已注册技能）".to_string()]);
    let skills = vec![SkillView {
        id: "ndvi".to_string(),
        version: "1.2".to_string(),
        capabilities: vec!["raster".to_string(), "index".to_string()],
    }];
    assert_eq!(
        skill_list_lines(&skills),
        vec![format!("{:<24} v{:<8} [{}]", "ndvi", "1.2", "raster, index")]
    );
}

fn layer_row(id: &str, visible: bool) -> kanyu_shell::panels::LayerView {
    kanyu_shell::panels::LayerView {
        id: id.to_string(),
        file_name: format!("{id}.shp"),
        format: "shp".to_string(),
        feature_count: 0,
        geometry_types: Vec::new(),
        fields: Vec::new(),
        visible,
        expanded: false,
        sym_classes: Vec::new(),
    }
}

#[test]
fn own_visibility_lookup() {
    let rows = vec![layer_row("a", true), layer_row("b", false), layer_row("a", false)];
    assert!(!kanyu_shell::panels::own_visible(&rows, "a"));
    assert!(!kanyu_shell::panels::own_visible(&rows, "b"));
    assert!(!kanyu_shell::panels::own_visible(&rows, "c"));
    let rows = vec![layer_row("a", false), layer_row("b", true)];
    assert!(kanyu_shell::panels::own_visible(&rows, "b"));
}

#[test]
fn layout_toolbar_caption() {
    assert_eq!(PageSize::A4Landscape.label(), "A4 横");
    assert_eq!(PageSize::A4Portrait.label(), "A4 纵");
    assert_eq!(layout_caption(PageSize::A4Portrait, 150, "示范"), "A4 纵 · 150dpi · 标题「示范」");
}
