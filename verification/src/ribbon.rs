//! Ribbon: tabs, the action every button produces, and the declarative
//! tab → group → command-id layout (titles and icons come from the registry).

use vstd::prelude::*;

use crate::commands::{
    command_table, condition_holds, find, first_with_id, law_command_ids_unique, AppSnapshot,
};
use crate::dock::PanelId;
use crate::edit::EditTool;
use crate::text::views;

verus! {

/// Ribbon tab.
#[derive(Clone, Copy, PartialEq, Eq, Debug, Structural)]
pub enum RibbonTab {
    /// Home: project files, appearance, about.
    Home,
    /// Data: layers, query, exchange, projection.
    Data,
    /// Edit: session, tools, undo/redo.
    Edit,
    /// Analysis: geometry, overlay, statistics.
    Analysis,
    /// Cartography: rendering and output.
    Cartography,
    /// View: camera, panels, map colours.
    View,
    /// Skills: WASM plug-ins.
    Skill,
    /// Help: documentation, about.
    Help,
}

/// Name of each tab.
pub open spec fn ribbon_tab_label(t: RibbonTab) -> Seq<char> {
    match t {
        RibbonTab::Home => "主页"@,
        RibbonTab::Data => "数据"@,
        RibbonTab::Edit => "编辑"@,
        RibbonTab::Analysis => "分析"@,
        RibbonTab::Cartography => "制图"@,
        RibbonTab::View => "视图"@,
        RibbonTab::Skill => "技能"@,
        RibbonTab::Help => "帮助"@,
    }
}

impl RibbonTab {
    /// All tabs, in display order.
    pub const ALL: [RibbonTab; 8] = [
        RibbonTab::Home,
        RibbonTab::Data,
        RibbonTab::Edit,
        RibbonTab::Analysis,
        RibbonTab::Cartography,
        RibbonTab::View,
        RibbonTab::Skill,
        RibbonTab::Help,
    ];

    /// Tab name.
    pub fn label(self) -> (r: &'static str)
        ensures
            r@ == ribbon_tab_label(self),
    {
        match self {
            RibbonTab::Home => "主页",
            RibbonTab::Data => "数据",
            RibbonTab::Edit => "编辑",
            RibbonTab::Analysis => "分析",
            RibbonTab::Cartography => "制图",
            RibbonTab::View => "视图",
            RibbonTab::Skill => "技能",
            RibbonTab::Help => "帮助",
        }
    }
}

/// Action produced by a ribbon button (dispatched by the application).
#[derive(Clone, Copy, PartialEq, Eq, Debug, Structural)]
pub enum RibbonAction {
    // Home
    /// Open-data-file dialog.
    OpenData,
    /// Load the bundled example.
    OpenExample,
    /// Open a project (.kyu).
    OpenProject,
    /// Save the project (.kyu).
    SaveProject,
    /// Save the window as PNG.
    SaveScreenshot,
    /// Switch the interface between light and dark (map colours unaffected).
    ToggleTheme,
    // Data
    /// Layer summary (to the terminal).
    LayerInfo,
    /// Attribute query dialog.
    QueryDialog,
    /// Layer export dialog.
    ExportDialog,
    /// Reprojection dialog.
    ReprojectDialog,
    // Edit
    /// Start editing the selected layer.
    StartEdit,
    /// Save the edits (ends the session).
    SaveEdit,
    /// Discard the edits (undone one by one).
    DiscardEdit,
    /// Switch the editing tool.
    SetEditTool(EditTool),
    /// Vertex snapping on/off (within a session).
    ToggleEditSnap,
    /// Topological editing on/off (shared vertices move together).
    ToggleEditTopo,
    /// Undo one step.
    Undo,
    /// Redo one step.
    Redo,
    // Analysis
    /// Buffer dialog.
    BufferDialog,
    /// Overlay dialog.
    OverlayDialog,
    /// Topology check of the current layer.
    Topology,
    /// Spatial join dialog.
    SjoinDialog,
    /// Zonal statistics dialog.
    ZonalDialog,
    /// Geodesic measurement dialog.
    MeasureDialog,
    // Cartography
    /// Map export dialog.
    ExportMapDialog,
    /// Real-estate map dialog.
    EstateMapDialog,
    // View
    /// Zoom to the data.
    ZoomToFit,
    /// Reset the view.
    ResetView,
    /// New 2D map frame (with its own layers).
    NewFrame2D,
    /// New 3D scene.
    NewFrame3D,
    /// Show or hide a panel (a closed panel is reopened here).
    TogglePanel(PanelId),
    /// Settings dialog (coordinate system, rendering).
    SettingsDialog,
    /// Cycle the map colour mode (fixed light, fixed dark, follow the interface).
    CycleMapTheme,
    // Skills
    /// Hot-load WASM skills.
    SkillHotload,
    /// List the skills (to the terminal).
    SkillList,
    /// Run-skill dialog.
    SkillRunDialog,
    // Help
    /// Command reference (to the terminal).
    ShowHelp,
    /// About dialog.
    About,
}

/// A command group: its name and the ids of its commands.
pub struct GroupLayout {
    /// Group name.
    pub name: &'static str,
    /// Command ids, left to right.
    pub commands: Vec<&'static str>,
}

/// The name and command ids of each group.
pub open spec fn groups_view(v: Seq<GroupLayout>) -> Seq<(Seq<char>, Seq<Seq<char>>)> {
    v.map_values(|g: GroupLayout| (g.name@, views(g.commands@)))
}

/// The declared layout of each tab.
pub open spec fn tab_layout(tab: RibbonTab) -> Seq<(Seq<char>, Seq<Seq<char>>)> {
    match tab {
        RibbonTab::Home => seq![("工程"@, seq!["open_data"@, "open_example"@, "open_project"@, "save_project"@]), ("窗口"@, seq!["save_screenshot"@, "toggle_theme"@, "settings"@]), ("关于"@, seq!["about"@])],
        RibbonTab::Data => seq![("图层"@, seq!["layer_info"@, "query"@]), ("交换"@, seq!["export_layer"@, "reproject"@])],
        RibbonTab::Edit => seq![("会话"@, seq!["start_edit"@, "save_edit"@, "discard_edit"@]), ("工具"@, seq!["edit_select"@, "edit_vertex"@, "edit_move"@, "edit_add_point"@, "edit_add_line"@, "edit_add_polygon"@, "edit_add_hole"@, "edit_split"@, "edit_delete"@, "edit_snap"@, "edit_topo"@]), ("撤销"@, seq!["undo"@, "redo"@])],
        RibbonTab::Analysis => seq![("几何分析"@, seq!["buffer"@, "overlay"@, "topology"@]), ("关系统计"@, seq!["sjoin"@, "zonal"@, "measure"@])],
        RibbonTab::Cartography => seq![("地图输出"@, seq!["export_map"@, "estate_map"@])],
        RibbonTab::View => seq![("相机"@, seq!["zoom_fit"@, "reset_view"@, "new_frame_2d"@, "new_frame_3d"@]), ("面板"@, seq!["panel_catalog"@, "panel_layers"@, "panel_toolbox"@, "panel_attrtable"@, "panel_console"@, "panel_aichat"@]), ("地图色彩"@, seq!["map_theme"@])],
        RibbonTab::Skill => seq![("WASM 技能"@, seq!["skill_hotload"@, "skill_list"@, "skill_run"@])],
        RibbonTab::Help => seq![("文档"@, seq!["help"@, "about"@])],
    }
}

/// The layout of a tab: its command groups in order.
pub fn layout_of(tab: RibbonTab) -> (r: Vec<GroupLayout>)
    ensures
        groups_view(r@) == tab_layout(tab),
{
    let mut v: Vec<GroupLayout> = Vec::new();
    match tab {
        RibbonTab::Home => {
            let mut c: Vec<&'static str> = Vec::new();
            c.push("open_data");
            c.push("open_example");
            c.push("open_project");
            c.push("save_project");
            assert(views(c@) =~= seq!["open_data"@, "open_example"@, "open_project"@, "save_project"@]);
            v.push(GroupLayout { name: "工程", commands: c });
            let mut c: Vec<&'static str> = Vec::new();
            c.push("save_screenshot");
            c.push("toggle_theme");
            c.push("settings");
            assert(views(c@) =~= seq!["save_screenshot"@, "toggle_theme"@, "settings"@]);
            v.push(GroupLayout { name: "窗口", commands: c });
            let mut c: Vec<&'static str> = Vec::new();
            c.push("about");
            assert(views(c@) =~= seq!["about"@]);
            v.push(GroupLayout { name: "关于", commands: c });
            assert(groups_view(v@) =~= seq![("工程"@, seq!["open_data"@, "open_example"@, "open_project"@, "save_project"@]), ("窗口"@, seq!["save_screenshot"@, "toggle_theme"@, "settings"@]), ("关于"@, seq!["about"@])]);
        },
        RibbonTab::Data => {
            let mut c: Vec<&'static str> = Vec::new();
            c.push("layer_info");
            c.push("query");
            assert(views(c@) =~= seq!["layer_info"@, "query"@]);
            v.push(GroupLayout { name: "图层", commands: c });
            let mut c: Vec<&'static str> = Vec::new();
            c.push("export_layer");
            c.push("reproject");
            assert(views(c@) =~= seq!["export_layer"@, "reproject"@]);
            v.push(GroupLayout { name: "交换", commands: c });
            assert(groups_view(v@) =~= seq![("图层"@, seq!["layer_info"@, "query"@]), ("交换"@, seq!["export_layer"@, "reproject"@])]);
        },
        RibbonTab::Edit => {
            let mut c: Vec<&'static str> = Vec::new();
            c.push("start_edit");
            c.push("save_edit");
            c.push("discard_edit");
            assert(views(c@) =~= seq!["start_edit"@, "save_edit"@, "discard_edit"@]);
            v.push(GroupLayout { name: "会话", commands: c });
            let mut c: Vec<&'static str> = Vec::new();
            c.push("edit_select");
            c.push("edit_vertex");
            c.push("edit_move");
            c.push("edit_add_point");
            c.push("edit_add_line");
            c.push("edit_add_polygon");
            c.push("edit_add_hole");
            c.push("edit_split");
            c.push("edit_delete");
            c.push("edit_snap");
            c.push("edit_topo");
            assert(views(c@) =~= seq!["edit_select"@, "edit_vertex"@, "edit_move"@, "edit_add_point"@, "edit_add_line"@, "edit_add_polygon"@, "edit_add_hole"@, "edit_split"@, "edit_delete"@, "edit_snap"@, "edit_topo"@]);
            v.push(GroupLayout { name: "工具", commands: c });
            let mut c: Vec<&'static str> = Vec::new();
            c.push("undo");
            c.push("redo");
            assert(views(c@) =~= seq!["undo"@, "redo"@]);
            v.push(GroupLayout { name: "撤销", commands: c });
            assert(groups_view(v@) =~= seq![("会话"@, seq!["start_edit"@, "save_edit"@, "discard_edit"@]), ("工具"@, seq!["edit_select"@, "edit_vertex"@, "edit_move"@, "edit_add_point"@, "edit_add_line"@, "edit_add_polygon"@, "edit_add_hole"@, "edit_split"@, "edit_delete"@, "edit_snap"@, "edit_topo"@]), ("撤销"@, seq!["undo"@, "redo"@])]);
        },
        RibbonTab::Analysis => {
            let mut c: Vec<&'static str> = Vec::new();
            c.push("buffer");
            c.push("overlay");
            c.push("topology");
            assert(views(c@) =~= seq!["buffer"@, "overlay"@, "topology"@]);
            v.push(GroupLayout { name: "几何分析", commands: c });
            let mut c: Vec<&'static str> = Vec::new();
            c.push("sjoin");
            c.push("zonal");
            c.push("measure");
            assert(views(c@) =~= seq!["sjoin"@, "zonal"@, "measure"@]);
            v.push(GroupLayout { name: "关系统计", commands: c });
            assert(groups_view(v@) =~= seq![("几何分析"@, seq!["buffer"@, "overlay"@, "topology"@]), ("关系统计"@, seq!["sjoin"@, "zonal"@, "measure"@])]);
        },
        RibbonTab::Cartography => {
            let mut c: Vec<&'static str> = Vec::new();
            c.push("export_map");
            c.push("estate_map");
            assert(views(c@) =~= seq!["export_map"@, "estate_map"@]);
            v.push(GroupLayout { name: "地图输出", commands: c });
            assert(groups_view(v@) =~= seq![("地图输出"@, seq!["export_map"@, "estate_map"@])]);
        },
        RibbonTab::View => {
            let mut c: Vec<&'static str> = Vec::new();
            c.push("zoom_fit");
            c.push("reset_view");
            c.push("new_frame_2d");
            c.push("new_frame_3d");
            assert(views(c@) =~= seq!["zoom_fit"@, "reset_view"@, "new_frame_2d"@, "new_frame_3d"@]);
            v.push(GroupLayout { name: "相机", commands: c });
            let mut c: Vec<&'static str> = Vec::new();
            c.push("panel_catalog");
            c.push("panel_layers");
            c.push("panel_toolbox");
            c.push("panel_attrtable");
            c.push("panel_console");
            c.push("panel_aichat");
            assert(views(c@) =~= seq!["panel_catalog"@, "panel_layers"@, "panel_toolbox"@, "panel_attrtable"@, "panel_console"@, "panel_aichat"@]);
            v.push(GroupLayout { name: "面板", commands: c });
            let mut c: Vec<&'static str> = Vec::new();
            c.push("map_theme");
            assert(views(c@) =~= seq!["map_theme"@]);
            v.push(GroupLayout { name: "地图色彩", commands: c });
            assert(groups_view(v@) =~= seq![("相机"@, seq!["zoom_fit"@, "reset_view"@, "new_frame_2d"@, "new_frame_3d"@]), ("面板"@, seq!["panel_catalog"@, "panel_layers"@, "panel_toolbox"@, "panel_attrtable"@, "panel_console"@, "panel_aichat"@]), ("地图色彩"@, seq!["map_theme"@])]);
        },
        RibbonTab::Skill => {
            let mut c: Vec<&'static str> = Vec::new();
            c.push("skill_hotload");
            c.push("skill_list");
            c.push("skill_run");
            assert(views(c@) =~= seq!["skill_hotload"@, "skill_list"@, "skill_run"@]);
            v.push(GroupLayout { name: "WASM 技能", commands: c });
            assert(groups_view(v@) =~= seq![("WASM 技能"@, seq!["skill_hotload"@, "skill_list"@, "skill_run"@])]);
        },
        RibbonTab::Help => {
            let mut c: Vec<&'static str> = Vec::new();
            c.push("help");
            c.push("about");
            assert(views(c@) =~= seq!["help"@, "about"@]);
            v.push(GroupLayout { name: "文档", commands: c });
            assert(groups_view(v@) =~= seq![("文档"@, seq!["help"@, "about"@])]);
        },
    }
    assert(groups_view(v@) =~= tab_layout(tab));
    v
}

/// Every tab has at least one group, and every group at least one command.
pub proof fn law_tabs_have_buttons(tab: RibbonTab)
    ensures
        tab_layout(tab).len() > 0,
        forall|g: int|
            0 <= g < tab_layout(tab).len() ==> (#[trigger] tab_layout(tab)[g]).1.len() > 0,
{
}

/// At most one registry entry is the first with a given id.
proof fn lemma_first_with_id_unique(id: Seq<char>, i: int, k: int)
    requires
        first_with_id(id, i),
        first_with_id(id, k),
    ensures
        i == k,
{
    if i < k {
        assert(command_table()[i].id@ != id);
    } else if k < i {
        assert(command_table()[k].id@ != id);
    }
}

/// The registry entry for command `id` (the first with that id), if any.
pub open spec fn entry_of(id: Seq<char>) -> Option<int> {
    if exists|i: int| first_with_id(id, i) {
        Some(choose|i: int| first_with_id(id, i))
    } else {
        None
    }
}

/// What a click on the group button of command `id` gives: the command's
/// action when its condition holds (a greyed-out button does nothing).
pub open spec fn button_action(id: Seq<char>, s: AppSnapshot) -> Option<RibbonAction> {
    match entry_of(id) {
        Some(i) => if condition_holds(command_table()[i].enabled, s) {
            Some(command_table()[i].action)
        } else {
            None
        },
        None => None,
    }
}

/// What a click on the quick-access button of command `id` gives: the
/// command's action (those buttons are never greyed out).
pub open spec fn quick_action(id: Seq<char>) -> Option<RibbonAction> {
    match entry_of(id) {
        Some(i) => Some(command_table()[i].action),
        None => None,
    }
}

/// Ribbon state: the active tab.
pub struct Ribbon {
    /// Active tab.
    pub active: RibbonTab,
}

impl Default for Ribbon {
    /// Starts on the home tab.
    fn default() -> (r: Self)
        ensures
            r.active == RibbonTab::Home,
    {
        Ribbon { active: RibbonTab::Home }
    }
}

impl Ribbon {
    /// A click on a tab makes it the active one.
    pub fn select_tab(&mut self, tab: RibbonTab)
        ensures
            final(self).active == tab,
    {
        self.active = tab;
    }

    /// A click on the group button of command `id`.
    pub fn click_button(id: &str, snap: &AppSnapshot) -> (r: Option<RibbonAction>)
        ensures
            r == button_action(id@, *snap),
    {
        match find(id) {
            Some(c) => {
                proof {
                    let i = choose|i: int| first_with_id(id@, i) && command_table()[i] == c;
                    lemma_first_with_id_unique(id@, i, choose|k: int| first_with_id(id@, k));
                }
                if c.enabled.holds(snap) {
                    Some(c.action)
                } else {
                    None
                }
            },
            None => {
                assert(!exists|i: int| first_with_id(id@, i));
                None
            },
        }
    }

    /// A click on the quick-access button of command `id`.
    pub fn click_quick(id: &str) -> (r: Option<RibbonAction>)
        ensures
            r == quick_action(id@),
    {
        match find(id) {
            Some(c) => {
                proof {
                    let i = choose|i: int| first_with_id(id@, i) && command_table()[i] == c;
                    lemma_first_with_id_unique(id@, i, choose|k: int| first_with_id(id@, k));
                }
                Some(c.action)
            },
            None => {
                assert(!exists|i: int| first_with_id(id@, i));
                None
            },
        }
    }

    /// The quick-access undo button: enabled while there is something to
    /// undo.
    pub fn click_undo(snap: &AppSnapshot) -> (r: Option<RibbonAction>)
        ensures
            r == (if snap.can_undo {
                Some(RibbonAction::Undo)
            } else {
                None
            }),
    {
        if snap.can_undo {
            Some(RibbonAction::Undo)
        } else {
            None
        }
    }

    /// The quick-access redo button: enabled while there is something to
    /// redo.
    pub fn click_redo(snap: &AppSnapshot) -> (r: Option<RibbonAction>)
        ensures
            r == (if snap.can_redo {
                Some(RibbonAction::Redo)
            } else {
                None
            }),
    {
        if snap.can_redo {
            Some(RibbonAction::Redo)
        } else {
            None
        }
    }
}

/// The undo and redo buttons act exactly when there is something to undo or
/// redo, and then undo or redo.
pub proof fn law_undo_redo_buttons(s: AppSnapshot)
    ensures
        button_action("undo"@, s) == (if s.can_undo {
            Some(RibbonAction::Undo)
        } else {
            None
        }),
        button_action("redo"@, s) == (if s.can_redo {
            Some(RibbonAction::Redo)
        } else {
            None
        }),
{
    law_command_ids_unique();
    assert(command_table()[49].id@ == "undo"@);
    assert(command_table()[50].id@ == "redo"@);
    assert forall|j: int| 0 <= j < 49 implies command_table()[j].id@ != "undo"@ by {
        assert(command_table()[j].id@ != command_table()[49].id@);
    }
    assert forall|j: int| 0 <= j < 50 implies command_table()[j].id@ != "redo"@ by {
        assert(command_table()[j].id@ != command_table()[50].id@);
    }
    assert(first_with_id("undo"@, 49));
    assert(first_with_id("redo"@, 50));
    lemma_first_with_id_unique("undo"@, 49, choose|k: int| first_with_id("undo"@, k));
    lemma_first_with_id_unique("redo"@, 50, choose|k: int| first_with_id("redo"@, k));
}

} // verus!
