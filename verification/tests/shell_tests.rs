use kanyu_shell::attrtable::AttrTablePanel;
use kanyu_shell::console::{ConsolePanel, LineKind};
use kanyu_shell::dialogs::Dialogs;
use kanyu_shell::dock::{DockState, PanelId};
use kanyu_shell::edit::EditTool;
use kanyu_shell::map_theme::MapThemeMode;
use kanyu_shell::mapview::ViewDim;
use kanyu_shell::panels::{LayerView, MoveDir, PanelAction, SkillView};
use kanyu_shell::ribbon::RibbonAction;
use kanyu_shell::shell::{
    dispatch_step, group_created, group_dissolved, group_removed, panel_step, remove_layer,
    skill_loaded, PanelEffect, RenameTarget, ShellEffect, ShellState,
};

fn layer(id: &str, types: &[&str]) -> LayerView {
    LayerView {
        id: id.to_string(),
        file_name: format!("{id}.geojson"),
        format: "geojson".to_string(),
        feature_count: 4,
        geometry_types: types.iter().map(|t| t.to_string()).collect(),
        fields: vec!["name".to_string()],
        visible: true,
        expanded: false,
        sym_classes: Vec::new(),
    }
}

fn state() -> ShellState {
    let mut console = ConsolePanel::default();
    console.lines.clear();
    ShellState {
        selected: None,
        layers: vec![layer("buildings", &["Polygon"]), layer("roads", &["LineString"])],
        skills: Vec::new(),
        dialogs: Dialogs::default(),
        dock: DockState::default(),
        console,
        map_theme: MapThemeMode::FixedLight,
        edit: None,
        project_crs: "EPSG:3857".to_string(),
        needs_fit: false,
        status: String::new(),
        selected_group: None,
        rename: None,
        attrtable: AttrTablePanel::default(),
    }
}

#[test]
fn file_actions_are_left_to_the_application() {
    let mut s = state();
    assert!(matches!(dispatch_step(&mut s, RibbonAction::OpenData), ShellEffect::PickDataFile));
    match dispatch_step(&mut s, RibbonAction::OpenExample) {
        ShellEffect::OpenFile(p) => assert_eq!(p, "examples/buildings.geojson"),
        _ => panic!("expected the example file"),
    }
    assert!(matches!(dispatch_step(&mut s, RibbonAction::NewFrame3D), ShellEffect::NewFrame(ViewDim::ThreeD)));
    assert!(s.console.lines.is_empty());
}

#[test]
fn forms_open_with_defaults() {
    let mut s = state();
    dispatch_step(&mut s, RibbonAction::ReprojectDialog);
    let r = s.dialogs.reproject.as_ref().unwrap();
    assert_eq!((r.from.as_str(), r.to.as_str()), ("EPSG:4326", "EPSG:3857"));
    dispatch_step(&mut s, RibbonAction::EstateMapDialog);
    assert!(s.dialogs.estate_map.is_some());
    dispatch_step(&mut s, RibbonAction::About);
    assert!(s.dialogs.about);
}

#[test]
fn selection_actions() {
    let mut s = state();
    dispatch_step(&mut s, RibbonAction::LayerInfo);
    assert_eq!(s.console.lines[0].kind, LineKind::Error);
    assert_eq!(s.console.lines[0].text, "未选中图层");
    assert!(matches!(dispatch_step(&mut s, RibbonAction::StartEdit), ShellEffect::Nothing));
    assert!(s.edit.is_none());
    s.selected = Some(1);
    dispatch_step(&mut s, RibbonAction::LayerInfo);
    assert_eq!(s.console.lines[1].text, "图层 roads: 4 要素 | 几何 LineString | 字段 [name]");
    match dispatch_step(&mut s, RibbonAction::Topology) {
        ShellEffect::RunTopology(id) => assert_eq!(id, "roads"),
        _ => panic!("expected a topology check"),
    }
}

#[test]
fn edit_session_lifecycle() {
    let mut s = state();
    s.selected = Some(1);
    match dispatch_step(&mut s, RibbonAction::StartEdit) {
        ShellEffect::Toast { ok, text } => {
            assert!(ok);
            assert_eq!(text, "开始编辑 roads.geojson");
        }
        _ => panic!("expected a toast"),
    }
    assert_eq!(s.console.lines[0].text, "编辑会话已开始：roads.geojson（编辑页签选择工具）");
    let e = s.edit.as_ref().unwrap();
    assert_eq!((e.tool, e.snap), (EditTool::Select, true));
    match dispatch_step(&mut s, RibbonAction::SetEditTool(EditTool::AddPolygon)) {
        ShellEffect::Toast { ok, text } => {
            assert!(!ok);
            assert!(text.contains("工具仅适用于面图层"));
        }
        _ => panic!("expected a refusal"),
    }
    assert_eq!(s.edit.as_ref().unwrap().tool, EditTool::Select);
    dispatch_step(&mut s, RibbonAction::SetEditTool(EditTool::AddLine));
    assert_eq!(s.edit.as_ref().unwrap().tool, EditTool::AddLine);
    assert_eq!(s.status, "编辑工具 → 添加线");
    dispatch_step(&mut s, RibbonAction::ToggleEditSnap);
    assert!(!s.edit.as_ref().unwrap().snap);
    assert_eq!(s.status, "顶点捕捉 → 关");
    match dispatch_step(&mut s, RibbonAction::DiscardEdit) {
        ShellEffect::DiscardEdits { target, message } => {
            assert_eq!(target, "roads");
            assert_eq!(message, "已放弃编辑：roads.geojson");
        }
        _ => panic!("expected the edits to be discarded"),
    }
    assert!(s.edit.is_none());
    assert!(matches!(dispatch_step(&mut s, RibbonAction::SaveEdit), ShellEffect::Nothing));
}

#[test]
fn view_theme_panels_and_listings() {
    let mut s = state();
    assert!(matches!(dispatch_step(&mut s, RibbonAction::CycleMapTheme), ShellEffect::MapRedraw));
    assert_eq!(s.map_theme, MapThemeMode::FixedDark);
    assert!(s.console.lines[0].text.starts_with("地图色彩模式 → "));
    let was_open = s.dock.is_open(PanelId::Console);
    assert!(matches!(dispatch_step(&mut s, RibbonAction::TogglePanel(PanelId::Console)), ShellEffect::PanelsChanged));
    assert_eq!(s.dock.is_open(PanelId::Console), !was_open);
    dispatch_step(&mut s, RibbonAction::ZoomToFit);
    assert!(s.needs_fit);
    dispatch_step(&mut s, RibbonAction::SkillList);
    assert_eq!(s.console.lines.last().unwrap().text, "（无已注册技能）");
    s.skills.push(SkillView { id: "ndvi".into(), version: "1.0".into(), capabilities: vec!["raster".into()] });
    s.skills.push(SkillView { id: "slope".into(), version: "0.2".into(), capabilities: vec![] });
    let before = s.console.lines.len();
    dispatch_step(&mut s, RibbonAction::SkillList);
    assert_eq!(s.console.lines.len(), before + 2);
    assert!(s.console.lines[before].text.starts_with("ndvi"));
}

#[test]
fn contents_panel_actions() {
    let mut s = state();
    s.selected_group = Some("g".into());
    panel_step(&mut s, PanelAction::SelectLayer("roads".into()));
    assert_eq!(s.selected, Some(1));
    assert!(s.selected_group.is_none());
    panel_step(&mut s, PanelAction::SelectLayer("nothing".into()));
    assert_eq!(s.selected, None);
    assert!(matches!(panel_step(&mut s, PanelAction::ToggleLayerVisible("roads".into())), PanelEffect::Redraw));
    assert!(!s.layers[1].visible);
    assert!(matches!(panel_step(&mut s, PanelAction::SetLayerVisible("zzz".into(), false)), PanelEffect::Nothing));
    panel_step(&mut s, PanelAction::ToggleExpand("buildings".into()));
    assert!(s.layers[0].expanded);
    assert!(matches!(panel_step(&mut s, PanelAction::ZoomToLayer("roads".into())), PanelEffect::ZoomToLayer(1)));
    panel_step(&mut s, PanelAction::ShowSummary("roads".into()));
    assert_eq!(
        s.console.lines.last().unwrap().text,
        "图层 roads: 4 要素 | 格式 geojson | 几何 LineString | 字段 [name]"
    );
    panel_step(&mut s, PanelAction::OpenAttrTable("buildings".into()));
    assert_eq!(s.selected, Some(0));
    assert_eq!(s.attrtable.layer(), Some("buildings"));
    assert!(s.dock.is_open(PanelId::AttrTable));
    panel_step(&mut s, PanelAction::RenameLayer("roads".into()));
    let r = s.rename.as_ref().unwrap();
    assert!(matches!(&r.target, RenameTarget::Layer(id) if id == "roads"));
    assert_eq!(r.name, "roads.geojson");
    panel_step(&mut s, PanelAction::RenameGroup("基础/交通".into()));
    assert_eq!(s.rename.as_ref().unwrap().name, "交通");
    panel_step(&mut s, PanelAction::NewGroupForLayer("roads".into()));
    assert_eq!(s.rename.as_ref().unwrap().name, "新建图层组");
    panel_step(&mut s, PanelAction::ExportLayer("roads".into()));
    assert_eq!(s.selected, Some(1));
    assert!(s.dialogs.export.is_some());
    assert!(matches!(
        panel_step(&mut s, PanelAction::MoveLayer("roads".into(), MoveDir::Up)),
        PanelEffect::MoveLayer(id, MoveDir::Up) if id == "roads"
    ));
    panel_step(&mut s, PanelAction::SetAllVisible(false));
    assert!(s.layers.iter().all(|l| !l.visible));
    panel_step(&mut s, PanelAction::SetAllExpanded(true));
    assert!(s.layers.iter().all(|l| l.expanded));
    panel_step(&mut s, PanelAction::SelectGroup("基础".into()));
    assert_eq!(s.selected, None);
    assert_eq!(s.selected_group.as_deref(), Some("基础"));
}

#[test]
fn skill_registration_messages() {
    let mut s = state();
    let ndvi = || SkillView { id: "ndvi".into(), version: "1.0".into(), capabilities: vec!["raster".into(), "fs".into()] };
    skill_loaded(&mut s, Ok(ndvi()));
    assert_eq!(s.console.lines[0].text, "技能已注册: ndvi v1.0（能力: raster, fs）");
    skill_loaded(&mut s, Ok(ndvi()));
    assert_eq!(s.console.lines[1].text, "技能已注册: ndvi v1.0（能力: raster, fs，覆盖同名）");
    assert_eq!(s.skills.len(), 2);
    skill_loaded(&mut s, Err("缺少导出函数".into()));
    assert_eq!(s.console.lines[2].kind, LineKind::Error);
    assert_eq!(s.console.lines[2].text, "技能校验失败: 缺少导出函数");
}

#[test]
fn group_and_layer_removal_follow_ups() {
    let mut s = state();
    s.layers.push(layer("rivers", &["LineString"]));
    s.selected = Some(2);
    s.selected_group = Some("水系".into());
    group_created(&mut s, "新建图层组 2");
    assert_eq!(s.console.lines[0].text, "已新建图层组「新建图层组 2」");
    assert!(!group_dissolved(&mut s, "水系", false));
    assert_eq!(s.selected_group.as_deref(), Some("水系"));
    assert!(group_dissolved(&mut s, "其他", true));
    assert_eq!(s.selected_group.as_deref(), Some("水系"));
    assert_eq!(s.console.lines[1].text, "已取消分组「其他」（子项上移一级）");
    assert!(group_removed(&mut s, "水系", Some(vec!["buildings".into(), "missing".into()])));
    assert_eq!(s.layers.len(), 2);
    assert_eq!(s.selected, Some(1));
    assert!(s.selected_group.is_none());
    assert_eq!(s.console.lines[2].text, "已移除组「水系」及 2 个图层");
    assert!(!group_removed(&mut s, "x", None));
    assert!(remove_layer(&mut s, "rivers"));
    assert_eq!(s.selected, None);
    assert_eq!(s.console.lines[3].text, "已移除图层 rivers.geojson");
    assert!(!remove_layer(&mut s, "rivers"));
}
