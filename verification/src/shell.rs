//! The shell's answer to a ribbon action: how the selection, the forms, the
//! docked panels, the terminal, the map colour mode and the editing session
//! change, and what the application is left to do (file pickers, rendering,
//! data operations).

use vstd::prelude::*;

use crate::attrtable::{opt_str, AttrTablePanel};
use crate::console::{ConsoleLine, ConsolePanel, LineKind, HELP_TEXT};
use crate::dialogs::{DialogKind, Dialogs};
use crate::dock::{DockState, PanelId};
use crate::edit::{edit_tool_label, tool_fits, tool_mismatch_msg, tool_geometry_match, EditTool};
use crate::map_theme::{map_theme_label, map_theme_next, MapThemeMode};
use crate::mapview::ViewDim;
use crate::panels::{
    layer_info_line, layer_info_text, layer_summary_line, layer_summary_text, skill_list_lines,
    skill_row_text, LayerView, MoveDir, PanelAction, SkillView,
};
use crate::ribbon::RibbonAction;
use crate::text::{after_last, after_last_seq, join, join_seq, push_decimal, dec_seq, str_eq, string_views};

verus! {

/// The editing session as the shell's decisions see it.
pub struct EditTarget {
    /// Id of the layer being edited.
    pub target: String,
    /// Its display name.
    pub target_name: String,
    /// Current tool.
    pub tool: EditTool,
    /// Vertex snapping.
    pub snap: bool,
    /// A sketch is in progress.
    pub sketching: bool,
}

/// The part of the shell that ribbon actions change.
pub struct ShellState {
    /// Index of the selected layer.
    pub selected: Option<usize>,
    /// The layers, bottom to top.
    pub layers: Vec<LayerView>,
    /// Registered skills.
    pub skills: Vec<SkillView>,
    /// The analysis forms.
    pub dialogs: Dialogs,
    /// The docked panels.
    pub dock: DockState,
    /// The terminal.
    pub console: ConsolePanel,
    /// Map colour mode.
    pub map_theme: MapThemeMode,
    /// The editing session, if one is active.
    pub edit: Option<EditTarget>,
    /// The project's coordinate system.
    pub project_crs: String,
    /// The view fits the data on the next frame.
    pub needs_fit: bool,
    /// Status bar text.
    pub status: String,
    /// Path of the selected group.
    pub selected_group: Option<String>,
    /// The rename box, when open.
    pub rename: Option<RenameState>,
    /// The attribute table.
    pub attrtable: AttrTablePanel,
}

/// What the rename box renames.
pub enum RenameTarget {
    /// A layer's display name (its id stays).
    Layer(String),
    /// A group (by path).
    Group(String),
    /// A new group made for this layer, which moves into it.
    NewGroupForLayer(String),
}

/// The rename box: what it renames and the name being typed.
pub struct RenameState {
    /// What is renamed.
    pub target: RenameTarget,
    /// The name in the box.
    pub name: String,
}

/// What the application does after an action.
pub enum ShellEffect {
    /// Nothing more.
    Nothing,
    /// Pick a data file and open it.
    PickDataFile,
    /// Open this data file.
    OpenFile(String),
    /// Pick a project file and open it.
    PickProjectToOpen,
    /// Pick where to save the project.
    PickProjectToSave,
    /// Pick where to save a window screenshot, then take it.
    PickScreenshot,
    /// Switch the interface theme.
    ToggleUiTheme,
    /// Check the topology of this layer and report in the terminal.
    RunTopology(String),
    /// Open the settings page.
    OpenSettings,
    /// Show a notice (`ok`) or an error toast.
    Toast { ok: bool, text: String },
    /// Undo every edit of the session on this layer, then show the message.
    DiscardEdits { target: String, message: String },
    /// Undo one edit.
    Undo,
    /// Redo one edit.
    Redo,
    /// Open a new map frame.
    NewFrame(ViewDim),
    /// Forget the view and fit the data again.
    ResetView,
    /// The panel layout changed (persist it).
    PanelsChanged,
    /// Redraw the map.
    MapRedraw,
    /// Pick a skill module and register it.
    PickSkill,
}

/// The example data set.
pub open spec fn example_path() -> Seq<char> {
    "examples/buildings.geojson"@
}

/// The form a ribbon action opens, if any.
pub open spec fn form_of(a: RibbonAction) -> Option<DialogKind> {
    match a {
        RibbonAction::QueryDialog => Some(DialogKind::Query),
        RibbonAction::ExportDialog => Some(DialogKind::Export),
        RibbonAction::ReprojectDialog => Some(DialogKind::Reproject),
        RibbonAction::BufferDialog => Some(DialogKind::Buffer),
        RibbonAction::OverlayDialog => Some(DialogKind::Overlay),
        RibbonAction::SjoinDialog => Some(DialogKind::Sjoin),
        RibbonAction::ZonalDialog => Some(DialogKind::Zonal),
        RibbonAction::MeasureDialog => Some(DialogKind::Measure),
        RibbonAction::ExportMapDialog => Some(DialogKind::ExportMap),
        RibbonAction::EstateMapDialog => Some(DialogKind::EstateMap),
        RibbonAction::SkillRunDialog => Some(DialogKind::SkillRun),
        _ => None,
    }
}

/// `next` is the terminal `prev` with lines of `kind` and texts `texts`
/// appended, everything else kept.
pub open spec fn says(prev: ConsolePanel, next: ConsolePanel, kind: LineKind, texts: Seq<Seq<char>>) -> bool {
    &&& next.lines@.len() == prev.lines@.len() + texts.len()
    &&& next.lines@.subrange(0, prev.lines@.len() as int) == prev.lines@
    &&& forall|i: int|
        0 <= i < texts.len() ==> (#[trigger] next.lines@[prev.lines@.len() + i]).kind == kind
            && next.lines@[prev.lines@.len() + i].text@ == texts[i]
    &&& next.input == prev.input
    &&& next.cmd_history == prev.cmd_history
    &&& next.nav == prev.nav
}

/// The message of a refused action that needs a selected layer.
pub open spec fn no_selection_msg() -> Seq<char> {
    "未选中图层"@
}

/// The first layer with id `id`.
pub open spec fn layer_index_of(layers: Seq<LayerView>, id: Seq<char>, i: int) -> bool {
    &&& 0 <= i < layers.len()
    &&& layers[i].id@ == id
    &&& forall|j: int| 0 <= j < i ==> layers[j].id@ != id
}

/// The geometry types of the first layer with id `id` (none without one).
pub open spec fn types_of(layers: Seq<LayerView>, id: Seq<char>) -> Seq<Seq<char>> {
    if exists|i: int| layer_index_of(layers, id, i) {
        string_views(layers[choose|i: int| layer_index_of(layers, id, i)].geometry_types@)
    } else {
        seq![]
    }
}

/// The texts of the skill listing.
pub open spec fn skill_listing(skills: Seq<SkillView>) -> Seq<Seq<char>> {
    if skills.len() == 0 {
        seq!["（无已注册技能）"@]
    } else {
        Seq::new(skills.len(), |i: int| skill_row_text(skills[i]))
    }
}

impl ShellState {
    /// The selected index, when there is one, names a layer.
    pub open spec fn wf(self) -> bool {
        self.selected matches Some(i) ==> i < self.layers@.len()
    }
}

/// The first layer with id `id`, if any.
fn layer_index(layers: &Vec<LayerView>, id: &str) -> (r: Option<usize>)
    ensures
        match r {
            Some(i) => layer_index_of(layers@, id@, i as int),
            None => forall|j: int| 0 <= j < layers@.len() ==> layers@[j].id@ != id@,
        },
{
    let n = layers.len();
    let mut i: usize = 0;
    while i < n
        invariant
            n == layers@.len(),
            i <= n,
            forall|j: int| 0 <= j < i ==> layers@[j].id@ != id@,
        decreases n - i,
    {
        if str_eq(layers[i].id.as_str(), id) {
            return Some(i);
        }
        i = i + 1;
    }
    None
}

/// Appends an information line.
fn say(console: &mut ConsolePanel, text: String)
    ensures
        says(*old(console), *final(console), LineKind::Info, seq![text@]),
        final(console).lines@ == old(console).lines@.push(ConsoleLine { kind: LineKind::Info, text }),
{
    console.info(text);
    assert(final(console).lines@.subrange(0, old(console).lines@.len() as int) =~= old(console).lines@);
}

/// Appends an error line.
fn say_error(console: &mut ConsolePanel, text: String)
    ensures
        says(*old(console), *final(console), LineKind::Error, seq![text@]),
{
    console.push(LineKind::Error, text);
    assert(final(console).lines@.subrange(0, old(console).lines@.len() as int) =~= old(console).lines@);
}

/// The state after a ribbon action, and what the application does next.
pub fn dispatch_step(state: &mut ShellState, action: RibbonAction) -> (e: ShellEffect)
    requires
        old(state).wf(),
    ensures
        final(state).wf(),
        form_of(action) matches Some(k) ==> e is Nothing && old(state).dialogs.opened_form(
            final(state).dialogs,
            k,
            old(state).project_crs@,
        ) && *final(state) == (ShellState { dialogs: final(state).dialogs, ..*old(state) }),
        match action {
            RibbonAction::OpenData => e is PickDataFile && *final(state) == *old(state),
            RibbonAction::OpenExample => (e matches ShellEffect::OpenFile(p) && p@ == example_path())
                && *final(state) == *old(state),
            RibbonAction::OpenProject => e is PickProjectToOpen && *final(state) == *old(state),
            RibbonAction::SaveProject => e is PickProjectToSave && *final(state) == *old(state),
            RibbonAction::SaveScreenshot => e is PickScreenshot && *final(state) == *old(state),
            RibbonAction::ToggleTheme => e is ToggleUiTheme && *final(state) == *old(state),
            RibbonAction::SettingsDialog => e is OpenSettings && *final(state) == *old(state),
            RibbonAction::SkillHotload => e is PickSkill && *final(state) == *old(state),
            RibbonAction::Undo => e is Undo && *final(state) == *old(state),
            RibbonAction::Redo => e is Redo && *final(state) == *old(state),
            RibbonAction::ToggleEditTopo => e is Nothing && *final(state) == *old(state),
            RibbonAction::NewFrame2D => (e matches ShellEffect::NewFrame(d) && d == ViewDim::TwoD)
                && *final(state) == *old(state),
            RibbonAction::NewFrame3D => (e matches ShellEffect::NewFrame(d) && d == ViewDim::ThreeD)
                && *final(state) == *old(state),
            RibbonAction::About => e is Nothing && *final(state) == (ShellState {
                dialogs: Dialogs { about: true, ..old(state).dialogs },
                ..*old(state)
            }),
            RibbonAction::ZoomToFit => e is Nothing && *final(state) == (ShellState {
                needs_fit: true,
                ..*old(state)
            }),
            RibbonAction::ResetView => e is ResetView && *final(state) == (ShellState {
                needs_fit: true,
                ..*old(state)
            }),
            RibbonAction::TogglePanel(id) => {
                &&& e is PanelsChanged
                &&& *final(state) == (ShellState { dock: final(state).dock, ..*old(state) })
                &&& old(state).dock.open_s(id) ==> old(state).dock.closes(final(state).dock, id)
                &&& !old(state).dock.open_s(id) ==> old(state).dock.opens(final(state).dock, id)
            },
            RibbonAction::CycleMapTheme => {
                &&& e is MapRedraw
                &&& final(state).map_theme == map_theme_next(old(state).map_theme)
                &&& says(
                    old(state).console,
                    final(state).console,
                    LineKind::Info,
                    seq!["地图色彩模式 → "@ + map_theme_label(final(state).map_theme)],
                )
                &&& *final(state) == (ShellState {
                    map_theme: final(state).map_theme,
                    console: final(state).console,
                    ..*old(state)
                })
            },
            RibbonAction::ShowHelp => {
                &&& e is Nothing
                &&& says(old(state).console, final(state).console, LineKind::Info, seq![HELP_TEXT@])
                &&& *final(state) == (ShellState { console: final(state).console, ..*old(state) })
            },
            RibbonAction::SkillList => {
                &&& e is Nothing
                &&& says(
                    old(state).console,
                    final(state).console,
                    LineKind::Info,
                    skill_listing(old(state).skills@),
                )
                &&& *final(state) == (ShellState { console: final(state).console, ..*old(state) })
            },
            RibbonAction::LayerInfo => {
                &&& e is Nothing
                &&& *final(state) == (ShellState { console: final(state).console, ..*old(state) })
                &&& match old(state).selected {
                    Some(i) => says(
                        old(state).console,
                        final(state).console,
                        LineKind::Info,
                        seq![
                            layer_info_text(
                                old(state).layers@[i as int].id@,
                                old(state).layers@[i as int].feature_count as nat,
                                string_views(old(state).layers@[i as int].geometry_types@),
                                string_views(old(state).layers@[i as int].fields@),
                            ),
                        ],
                    ),
                    None => says(
                        old(state).console,
                        final(state).console,
                        LineKind::Error,
                        seq![no_selection_msg()],
                    ),
                }
            },
            RibbonAction::Topology => match old(state).selected {
                Some(i) => (e matches ShellEffect::RunTopology(id) && id@
                    == old(state).layers@[i as int].id@) && *final(state) == *old(state),
                None => e is Nothing && says(
                    old(state).console,
                    final(state).console,
                    LineKind::Error,
                    seq![no_selection_msg()],
                ) && *final(state) == (ShellState { console: final(state).console, ..*old(state) }),
            },
            RibbonAction::StartEdit => match old(state).selected {
                Some(i) => {
                    let name = old(state).layers@[i as int].file_name@;
                    &&& final(state).edit matches Some(t) && t.target@ == old(
                        state,
                    ).layers@[i as int].id@ && t.target_name@ == name && t.tool == EditTool::Select
                        && t.snap && !t.sketching
                    &&& says(
                        old(state).console,
                        final(state).console,
                        LineKind::Info,
                        seq!["编辑会话已开始："@ + name + "（编辑页签选择工具）"@],
                    )
                    &&& e matches ShellEffect::Toast { ok, text } && ok && text@ == "开始编辑 "@
                        + name
                    &&& *final(state) == (ShellState {
                        edit: final(state).edit,
                        console: final(state).console,
                        ..*old(state)
                    })
                },
                None => e is Nothing && *final(state) == *old(state),
            },
            RibbonAction::SaveEdit => match old(state).edit {
                Some(t) => {
                    let msg = "编辑会话已结束："@ + t.target_name@
                        + "（编辑即时生效；落盘请用「数据 → 导出图层…」）"@;
                    &&& final(state).edit is None
                    &&& says(old(state).console, final(state).console, LineKind::Info, seq![msg])
                    &&& e matches ShellEffect::Toast { ok, text } && ok && text@ == msg
                    &&& *final(state) == (ShellState {
                        edit: None,
                        console: final(state).console,
                        ..*old(state)
                    })
                },
                None => e is Nothing && *final(state) == *old(state),
            },
            RibbonAction::DiscardEdit => match old(state).edit {
                Some(t) => {
                    let msg = "已放弃编辑："@ + t.target_name@;
                    &&& says(old(state).console, final(state).console, LineKind::Info, seq![msg])
                    &&& e matches ShellEffect::DiscardEdits { target, message } && target@
                        == t.target@ && message@ == msg
                    &&& *final(state) == (ShellState {
                        edit: None,
                        console: final(state).console,
                        ..*old(state)
                    })
                },
                None => e is Nothing && *final(state) == *old(state),
            },
            RibbonAction::SetEditTool(tool) => match old(state).edit {
                Some(t) => {
                    let types = types_of(old(state).layers@, t.target@);
                    if tool_fits(tool, types) {
                        &&& e is Nothing
                        &&& final(state).edit matches Some(t2) && t2.tool == tool && !t2.sketching
                            && t2.target == t.target && t2.target_name == t.target_name && t2.snap
                            == t.snap
                        &&& final(state).status@ == "编辑工具 → "@ + edit_tool_label(tool)
                        &&& *final(state) == (ShellState {
                            edit: final(state).edit,
                            status: final(state).status,
                            ..*old(state)
                        })
                    } else {
                        let msg = tool_mismatch_msg(tool, types);
                        &&& e matches ShellEffect::Toast { ok, text } && !ok && text@ == msg
                        &&& says(old(state).console, final(state).console, LineKind::Error, seq![msg])
                        &&& *final(state) == (ShellState {
                            console: final(state).console,
                            ..*old(state)
                        })
                    }
                },
                None => e is Nothing && *final(state) == *old(state),
            },
            RibbonAction::ToggleEditSnap => match old(state).edit {
                Some(t) => {
                    &&& e is Nothing
                    &&& final(state).edit matches Some(t2) && t2.snap == !t.snap && t2.tool == t.tool
                        && t2.sketching == t.sketching && t2.target == t.target && t2.target_name
                        == t.target_name
                    &&& final(state).status@ == "顶点捕捉 → "@ + (if t.snap {
                        "关"@
                    } else {
                        "开"@
                    })
                    &&& *final(state) == (ShellState {
                        edit: final(state).edit,
                        status: final(state).status,
                        ..*old(state)
                    })
                },
                None => e is Nothing && *final(state) == *old(state),
            },
            _ => true,
        },
{
    let kind = match action {
        RibbonAction::QueryDialog => Some(DialogKind::Query),
        RibbonAction::ExportDialog => Some(DialogKind::Export),
        RibbonAction::ReprojectDialog => Some(DialogKind::Reproject),
        RibbonAction::BufferDialog => Some(DialogKind::Buffer),
        RibbonAction::OverlayDialog => Some(DialogKind::Overlay),
        RibbonAction::SjoinDialog => Some(DialogKind::Sjoin),
        RibbonAction::ZonalDialog => Some(DialogKind::Zonal),
        RibbonAction::MeasureDialog => Some(DialogKind::Measure),
        RibbonAction::ExportMapDialog => Some(DialogKind::ExportMap),
        RibbonAction::EstateMapDialog => Some(DialogKind::EstateMap),
        RibbonAction::SkillRunDialog => Some(DialogKind::SkillRun),
        _ => None,
    };
    if let Some(k) = kind {
        let crs = state.project_crs.clone();
        state.dialogs.open_form(k, crs.as_str());
        return ShellEffect::Nothing;
    }
    match action {
        RibbonAction::OpenData => ShellEffect::PickDataFile,
        RibbonAction::OpenExample => ShellEffect::OpenFile(
            String::from_str("examples/buildings.geojson"),
        ),
        RibbonAction::OpenProject => ShellEffect::PickProjectToOpen,
        RibbonAction::SaveProject => ShellEffect::PickProjectToSave,
        RibbonAction::SaveScreenshot => ShellEffect::PickScreenshot,
        RibbonAction::ToggleTheme => ShellEffect::ToggleUiTheme,
        RibbonAction::SettingsDialog => ShellEffect::OpenSettings,
        RibbonAction::SkillHotload => ShellEffect::PickSkill,
        RibbonAction::Undo => ShellEffect::Undo,
        RibbonAction::Redo => ShellEffect::Redo,
        RibbonAction::NewFrame2D => ShellEffect::NewFrame(ViewDim::TwoD),
        RibbonAction::NewFrame3D => ShellEffect::NewFrame(ViewDim::ThreeD),
        RibbonAction::About => {
            state.dialogs.about = true;
            ShellEffect::Nothing
        },
        RibbonAction::ZoomToFit => {
            state.needs_fit = true;
            ShellEffect::Nothing
        },
        RibbonAction::ResetView => {
            state.needs_fit = true;
            ShellEffect::ResetView
        },
        RibbonAction::TogglePanel(id) => {
            state.dock.toggle_panel(id);
            ShellEffect::PanelsChanged
        },
        RibbonAction::CycleMapTheme => {
            let m = state.map_theme.next();
            state.map_theme = m;
            let mut t = String::from_str("地图色彩模式 → ");
            t.append(m.label());
            say(&mut state.console, t);
            ShellEffect::MapRedraw
        },
        RibbonAction::ShowHelp => {
            say(&mut state.console, String::from_str(HELP_TEXT));
            ShellEffect::Nothing
        },
        RibbonAction::SkillList => {
            let texts = skill_list_lines(&state.skills);
            let ghost want = skill_listing(old(state).skills@);
            let ghost base = old(state).console.lines@.len();
            assert(string_views(texts@) =~= want);
            let n = texts.len();
            let mut i: usize = 0;
            while i < n
                invariant
                    n == texts@.len(),
                    i <= n,
                    string_views(texts@) == want,
                    base == old(state).console.lines@.len(),
                    *state == (ShellState { console: state.console, ..*old(state) }),
                    state.console.lines@.len() == base + i,
                    state.console.lines@.subrange(0, base as int) == old(state).console.lines@,
                    forall|k: int|
                        0 <= k < i ==> (#[trigger] state.console.lines@[base + k]).kind
                            == LineKind::Info && state.console.lines@[base + k].text@ == want[k],
                    state.console.input == old(state).console.input,
                    state.console.cmd_history == old(state).console.cmd_history,
                    state.console.nav == old(state).console.nav,
                decreases n - i,
            {
                let ghost before = state.console;
                say(&mut state.console, texts[i].clone());
                assert(want[i as int] == texts@[i as int]@);
                assert forall|k: int| 0 <= k < i + 1 implies (#[trigger] state.console.lines@[base
                    + k]).kind == LineKind::Info && state.console.lines@[base + k].text@
                    == want[k] by {
                    if k < i {
                        assert(state.console.lines@[base + k] == before.lines@[base + k]);
                    }
                }
                assert(state.console.lines@.subrange(0, base as int) =~= before.lines@.subrange(
                    0,
                    base as int,
                ));
                i = i + 1;
            }
            ShellEffect::Nothing
        },
        RibbonAction::LayerInfo => {
            match state.selected {
                Some(i) => {
                    let t = layer_info_line(&state.layers[i]);
                    say(&mut state.console, t);
                },
                None => {
                    say_error(&mut state.console, String::from_str("未选中图层"));
                },
            }
            ShellEffect::Nothing
        },
        RibbonAction::Topology => {
            match state.selected {
                Some(i) => ShellEffect::RunTopology(state.layers[i].id.clone()),
                None => {
                    say_error(&mut state.console, String::from_str("未选中图层"));
                    ShellEffect::Nothing
                },
            }
        },
        RibbonAction::StartEdit => {
            match state.selected {
                Some(i) => {
                    let id = state.layers[i].id.clone();
                    let name = state.layers[i].file_name.clone();
                    let mut msg = String::from_str("编辑会话已开始：");
                    msg.append(name.as_str());
                    msg.append("（编辑页签选择工具）");
                    let mut toast = String::from_str("开始编辑 ");
                    toast.append(name.as_str());
                    state.edit = Some(
                        EditTarget {
                            target: id,
                            target_name: name,
                            tool: EditTool::Select,
                            snap: true,
                            sketching: false,
                        },
                    );
                    say(&mut state.console, msg);
                    ShellEffect::Toast { ok: true, text: toast }
                },
                None => ShellEffect::Nothing,
            }
        },
        RibbonAction::SaveEdit => {
            match state.edit.take() {
                Some(t) => {
                    let mut msg = String::from_str("编辑会话已结束：");
                    msg.append(t.target_name.as_str());
                    msg.append("（编辑即时生效；落盘请用「数据 → 导出图层…」）");
                    say(&mut state.console, msg.clone());
                    ShellEffect::Toast { ok: true, text: msg }
                },
                None => ShellEffect::Nothing,
            }
        },
        RibbonAction::DiscardEdit => {
            match state.edit.take() {
                Some(t) => {
                    let mut msg = String::from_str("已放弃编辑：");
                    msg.append(t.target_name.as_str());
                    say(&mut state.console, msg.clone());
                    ShellEffect::DiscardEdits { target: t.target, message: msg }
                },
                None => ShellEffect::Nothing,
            }
        },
        RibbonAction::SetEditTool(tool) => {
            let target = match &state.edit {
                Some(t) => t.target.clone(),
                None => return ShellEffect::Nothing,
            };
            let empty: Vec<String> = Vec::new();
            let check = match layer_index(&state.layers, target.as_str()) {
                Some(i) => {
                    proof {
                        let c = choose|j: int| layer_index_of(old(state).layers@, target@, j);
                        if c < i {
                            assert(old(state).layers@[c].id@ != target@);
                        } else if c > i {
                            assert(old(state).layers@[i as int].id@ != target@);
                        }
                    }
                    tool_geometry_match(tool, state.layers[i].geometry_types.as_slice())
                },
                None => {
                    assert(string_views(empty@) =~= seq![]);
                    tool_geometry_match(tool, empty.as_slice())
                },
            };
            match check {
                Err(m) => {
                    say_error(&mut state.console, m.clone());
                    ShellEffect::Toast { ok: false, text: m }
                },
                Ok(()) => {
                    let mut status = String::from_str("编辑工具 → ");
                    status.append(tool.label());
                    match state.edit.take() {
                        Some(t) => {
                            state.edit = Some(
                                EditTarget {
                                    target: t.target,
                                    target_name: t.target_name,
                                    tool,
                                    snap: t.snap,
                                    sketching: false,
                                },
                            );
                        },
                        None => {},
                    }
                    state.status = status;
                    ShellEffect::Nothing
                },
            }
        },
        RibbonAction::ToggleEditSnap => {
            match state.edit.take() {
                Some(t) => {
                    let snap = !t.snap;
                    state.edit = Some(
                        EditTarget {
                            target: t.target,
                            target_name: t.target_name,
                            tool: t.tool,
                            snap,
                            sketching: t.sketching,
                        },
                    );
                    let mut status = String::from_str("顶点捕捉 → ");
                    status.append(if snap { "开" } else { "关" });
                    state.status = status;
                },
                None => {},
            }
            ShellEffect::Nothing
        },
        _ => ShellEffect::Nothing,
    }
}

/// What the application does after a contents-panel action: work on the
/// layer tree (whose structure it keeps), on the map, or on a layer's data.
pub enum PanelEffect {
    /// Nothing more.
    Nothing,
    /// Layer visibility changed: rebuild the drawn layers.
    Redraw,
    /// Fit the view to this layer's extent, and select it when it has one.
    ZoomToLayer(usize),
    /// Open the properties page of this layer.
    OpenLayerProperties(String),
    /// Move a layer within its parent list.
    MoveLayer(String, MoveDir),
    /// Move a layer into a group (`None`: the top level).
    MoveLayerToGroup(String, Option<String>),
    /// Remove a layer.
    RemoveLayer(String),
    /// Expand or collapse a group.
    ToggleGroupExpand(String),
    /// Set a group's expansion.
    SetGroupExpanded(String, bool),
    /// Show or hide every layer of a group.
    SetGroupVisible(String, bool),
    /// Fit the view to a group's layers.
    ZoomToGroup(String),
    /// Make a new group (under this parent).
    NewGroup(Option<String>),
    /// Dissolve a group (its children move up).
    Ungroup(String),
    /// Remove a group and its layers.
    RemoveGroup(String),
    /// Set the expansion of every group.
    SetAllGroupsExpanded(bool),
    /// Set the visibility of every group.
    SetAllGroupsVisible(bool),
}

/// The index of the first layer with id `id`, if any.
pub open spec fn first_layer(layers: Seq<LayerView>, id: Seq<char>) -> Option<int> {
    if exists|i: int| layer_index_of(layers, id, i) {
        Some(choose|i: int| layer_index_of(layers, id, i))
    } else {
        None
    }
}

/// The first layer index with id `id` is unique.
proof fn lemma_first_layer(layers: Seq<LayerView>, id: Seq<char>, i: int)
    requires
        layer_index_of(layers, id, i),
    ensures
        first_layer(layers, id) == Some(i),
{
    let c = choose|j: int| layer_index_of(layers, id, j);
    if c < i {
        assert(layers[c].id@ != id);
    } else if c > i {
        assert(layers[i].id@ != id);
    }
}

/// The first layer with id `id`, with `first_layer` named.
fn find_layer(layers: &Vec<LayerView>, id: &str) -> (r: Option<usize>)
    ensures
        match r {
            Some(i) => first_layer(layers@, id@) == Some(i as int) && i < layers@.len(),
            None => first_layer(layers@, id@) is None,
        },
{
    let r = layer_index(layers, id);
    proof {
        match r {
            Some(i) => lemma_first_layer(layers@, id@, i as int),
            None => {
                assert(!exists|i: int| layer_index_of(layers@, id@, i));
            },
        }
    }
    r
}

/// `next` is `layers` with layer `i` shown or hidden.
pub open spec fn with_visible(layers: Seq<LayerView>, i: int, v: bool) -> Seq<LayerView> {
    layers.update(i, LayerView { visible: v, ..layers[i] })
}

/// `layers` with layer `i` expanded or collapsed.
pub open spec fn with_expanded(layers: Seq<LayerView>, i: int, v: bool) -> Seq<LayerView> {
    layers.update(i, LayerView { expanded: v, ..layers[i] })
}

/// Sets the visibility of layer `i`.
fn set_visible(layers: &mut Vec<LayerView>, i: usize, v: bool)
    requires
        i < old(layers)@.len(),
    ensures
        final(layers)@ == with_visible(old(layers)@, i as int, v),
{
    let mut lv = layers.remove(i);
    lv.visible = v;
    layers.insert(i, lv);
    assert(final(layers)@ =~= with_visible(old(layers)@, i as int, v));
}

/// Sets the expansion of layer `i`.
fn set_expanded(layers: &mut Vec<LayerView>, i: usize, v: bool)
    requires
        i < old(layers)@.len(),
    ensures
        final(layers)@ == with_expanded(old(layers)@, i as int, v),
{
    let mut lv = layers.remove(i);
    lv.expanded = v;
    layers.insert(i, lv);
    assert(final(layers)@ =~= with_expanded(old(layers)@, i as int, v));
}

/// The state after a contents-panel action, and what the application does
/// on the layer tree.
pub fn panel_step(state: &mut ShellState, action: PanelAction) -> (e: PanelEffect)
    requires
        old(state).wf(),
    ensures
        final(state).wf(),
        match action {
            PanelAction::SelectLayer(id) => e is Nothing && *final(state) == (ShellState {
                selected: match first_layer(old(state).layers@, id@) {
                    Some(i) => Some(i as usize),
                    None => None,
                },
                selected_group: None,
                ..*old(state)
            }),
            PanelAction::SetLayerVisible(id, v) => match first_layer(old(state).layers@, id@) {
                Some(i) => e is Redraw && final(state).layers@ == with_visible(
                    old(state).layers@,
                    i,
                    v,
                ) && *final(state) == (ShellState { layers: final(state).layers, ..*old(state) }),
                None => e is Nothing && *final(state) == *old(state),
            },
            PanelAction::ToggleLayerVisible(id) => match first_layer(old(state).layers@, id@) {
                Some(i) => e is Redraw && final(state).layers@ == with_visible(
                    old(state).layers@,
                    i,
                    !old(state).layers@[i].visible,
                ) && *final(state) == (ShellState { layers: final(state).layers, ..*old(state) }),
                None => e is Nothing && *final(state) == *old(state),
            },
            PanelAction::ToggleExpand(id) => match first_layer(old(state).layers@, id@) {
                Some(i) => e is Nothing && final(state).layers@ == with_expanded(
                    old(state).layers@,
                    i,
                    !old(state).layers@[i].expanded,
                ) && *final(state) == (ShellState { layers: final(state).layers, ..*old(state) }),
                None => e is Nothing && *final(state) == *old(state),
            },
            PanelAction::ZoomToLayer(id) => *final(state) == *old(state) && match first_layer(
                old(state).layers@,
                id@,
            ) {
                Some(i) => e matches PanelEffect::ZoomToLayer(j) && j == i,
                None => e is Nothing,
            },
            PanelAction::ShowSummary(id) => e is Nothing && match first_layer(
                old(state).layers@,
                id@,
            ) {
                Some(i) => says(
                    old(state).console,
                    final(state).console,
                    LineKind::Info,
                    seq![layer_summary_text(old(state).layers@[i])],
                ) && *final(state) == (ShellState { console: final(state).console, ..*old(state) }),
                None => *final(state) == *old(state),
            },
            PanelAction::OpenAttrTable(id) => e is Nothing && match first_layer(
                old(state).layers@,
                id@,
            ) {
                Some(i) => {
                    &&& final(state).selected == Some(i as usize)
                    &&& old(state).dock.opens(final(state).dock, PanelId::AttrTable)
                    &&& opt_str(final(state).attrtable.layer) == Some(id@)
                    &&& opt_str(old(state).attrtable.layer) == Some(id@) ==> final(state).attrtable
                        == old(state).attrtable
                    &&& opt_str(old(state).attrtable.layer) != Some(id@) ==> final(state).attrtable
                        == (AttrTablePanel {
                        layer: final(state).attrtable.layer,
                        sort: None,
                        sel_col: None,
                        ..old(state).attrtable
                    })
                    &&& *final(state) == (ShellState {
                        selected: final(state).selected,
                        dock: final(state).dock,
                        attrtable: final(state).attrtable,
                        ..*old(state)
                    })
                },
                None => *final(state) == *old(state),
            },
            PanelAction::LayerProperties(id) => (e matches PanelEffect::OpenLayerProperties(j)
                && j == id) && *final(state) == *old(state),
            PanelAction::MoveLayer(id, dir) => (e matches PanelEffect::MoveLayer(j, d) && j == id
                && d == dir) && *final(state) == *old(state),
            PanelAction::MoveLayerToGroup(id, path) => (e matches PanelEffect::MoveLayerToGroup(
                j,
                p,
            ) && j == id && p == path) && *final(state) == *old(state),
            PanelAction::RemoveLayer(id) => (e matches PanelEffect::RemoveLayer(j) && j == id)
                && *final(state) == *old(state),
            PanelAction::RenameLayer(id) => e is Nothing && match first_layer(
                old(state).layers@,
                id@,
            ) {
                Some(i) => (final(state).rename matches Some(r) && (r.target matches RenameTarget::Layer(
                    t,
                ) && t == id) && r.name@ == old(state).layers@[i].file_name@) && *final(state) == (
                ShellState { rename: final(state).rename, ..*old(state) }),
                None => *final(state) == *old(state),
            },
            PanelAction::NewGroupForLayer(id) => e is Nothing && (final(state).rename matches Some(r)
                && (r.target matches RenameTarget::NewGroupForLayer(t) && t == id) && r.name@
                == "新建图层组"@) && *final(state) == (ShellState {
                rename: final(state).rename,
                ..*old(state)
            }),
            PanelAction::ExportLayer(id) => e is Nothing && match first_layer(
                old(state).layers@,
                id@,
            ) {
                Some(i) => final(state).selected == Some(i as usize) && old(state).dialogs.opened_form(
                    final(state).dialogs,
                    DialogKind::Export,
                    old(state).project_crs@,
                ) && *final(state) == (ShellState {
                    selected: final(state).selected,
                    dialogs: final(state).dialogs,
                    ..*old(state)
                }),
                None => *final(state) == *old(state),
            },
            PanelAction::SelectGroup(path) => e is Nothing && *final(state) == (ShellState {
                selected_group: Some(path),
                selected: None,
                ..*old(state)
            }),
            PanelAction::RenameGroup(path) => e is Nothing && (final(state).rename matches Some(r)
                && (r.target matches RenameTarget::Group(t) && t == path) && r.name@
                == after_last_seq(path@, '/')) && *final(state) == (ShellState {
                rename: final(state).rename,
                ..*old(state)
            }),
            PanelAction::ToggleGroupExpand(path) => (e matches PanelEffect::ToggleGroupExpand(p)
                && p == path) && *final(state) == *old(state),
            PanelAction::SetGroupExpanded(path, v) => (e matches PanelEffect::SetGroupExpanded(p, w)
                && p == path && w == v) && *final(state) == *old(state),
            PanelAction::SetGroupVisible(path, v) => (e matches PanelEffect::SetGroupVisible(p, w)
                && p == path && w == v) && *final(state) == *old(state),
            PanelAction::ZoomToGroup(path) => (e matches PanelEffect::ZoomToGroup(p) && p == path)
                && *final(state) == *old(state),
            PanelAction::NewGroup(parent) => (e matches PanelEffect::NewGroup(p) && p == parent)
                && *final(state) == *old(state),
            PanelAction::Ungroup(path) => (e matches PanelEffect::Ungroup(p) && p == path)
                && *final(state) == *old(state),
            PanelAction::RemoveGroup(path) => (e matches PanelEffect::RemoveGroup(p) && p == path)
                && *final(state) == *old(state),
            PanelAction::SetAllExpanded(v) => {
                &&& e matches PanelEffect::SetAllGroupsExpanded(w) && w == v
                &&& final(state).layers@.len() == old(state).layers@.len()
                &&& forall|i: int|
                    0 <= i < old(state).layers@.len() ==> #[trigger] final(state).layers@[i] == (
                    LayerView { expanded: v, ..old(state).layers@[i] })
                &&& *final(state) == (ShellState { layers: final(state).layers, ..*old(state) })
            },
            PanelAction::SetAllVisible(v) => {
                &&& e matches PanelEffect::SetAllGroupsVisible(w) && w == v
                &&& final(state).layers@.len() == old(state).layers@.len()
                &&& forall|i: int|
                    0 <= i < old(state).layers@.len() ==> #[trigger] final(state).layers@[i] == (
                    LayerView { visible: v, ..old(state).layers@[i] })
                &&& *final(state) == (ShellState { layers: final(state).layers, ..*old(state) })
            },
        },
{
    match action {
        PanelAction::SelectLayer(id) => {
            state.selected = find_layer(&state.layers, id.as_str());
            state.selected_group = None;
            PanelEffect::Nothing
        },
        PanelAction::SetLayerVisible(id, v) => match find_layer(&state.layers, id.as_str()) {
            Some(i) => {
                set_visible(&mut state.layers, i, v);
                PanelEffect::Redraw
            },
            None => PanelEffect::Nothing,
        },
        PanelAction::ToggleLayerVisible(id) => match find_layer(&state.layers, id.as_str()) {
            Some(i) => {
                let v = !state.layers[i].visible;
                set_visible(&mut state.layers, i, v);
                PanelEffect::Redraw
            },
            None => PanelEffect::Nothing,
        },
        PanelAction::ToggleExpand(id) => {
            match find_layer(&state.layers, id.as_str()) {
                Some(i) => {
                    let v = !state.layers[i].expanded;
                    set_expanded(&mut state.layers, i, v);
                },
                None => {},
            }
            PanelEffect::Nothing
        },
        PanelAction::ZoomToLayer(id) => match find_layer(&state.layers, id.as_str()) {
            Some(i) => PanelEffect::ZoomToLayer(i),
            None => PanelEffect::Nothing,
        },
        PanelAction::ShowSummary(id) => {
            match find_layer(&state.layers, id.as_str()) {
                Some(i) => {
                    let t = layer_summary_line(&state.layers[i]);
                    say(&mut state.console, t);
                },
                None => {},
            }
            PanelEffect::Nothing
        },
        PanelAction::OpenAttrTable(id) => {
            match find_layer(&state.layers, id.as_str()) {
                Some(i) => {
                    state.selected = Some(i);
                    state.dock.open_panel(PanelId::AttrTable);
                    state.attrtable.set_layer(id);
                },
                None => {},
            }
            PanelEffect::Nothing
        },
        PanelAction::LayerProperties(id) => PanelEffect::OpenLayerProperties(id),
        PanelAction::MoveLayer(id, dir) => PanelEffect::MoveLayer(id, dir),
        PanelAction::MoveLayerToGroup(id, path) => PanelEffect::MoveLayerToGroup(id, path),
        PanelAction::RemoveLayer(id) => PanelEffect::RemoveLayer(id),
        PanelAction::RenameLayer(id) => {
            match find_layer(&state.layers, id.as_str()) {
                Some(i) => {
                    let name = state.layers[i].file_name.clone();
                    state.rename = Some(RenameState { target: RenameTarget::Layer(id), name });
                },
                None => {},
            }
            PanelEffect::Nothing
        },
        PanelAction::NewGroupForLayer(id) => {
            state.rename = Some(
                RenameState {
                    target: RenameTarget::NewGroupForLayer(id),
                    name: String::from_str("新建图层组"),
                },
            );
            PanelEffect::Nothing
        },
        PanelAction::ExportLayer(id) => {
            match find_layer(&state.layers, id.as_str()) {
                Some(i) => {
                    state.selected = Some(i);
                    let crs = state.project_crs.clone();
                    state.dialogs.open_form(DialogKind::Export, crs.as_str());
                },
                None => {},
            }
            PanelEffect::Nothing
        },
        PanelAction::SelectGroup(path) => {
            state.selected_group = Some(path);
            state.selected = None;
            PanelEffect::Nothing
        },
        PanelAction::RenameGroup(path) => {
            let name = String::from_str(after_last(path.as_str(), '/'));
            state.rename = Some(RenameState { target: RenameTarget::Group(path), name });
            PanelEffect::Nothing
        },
        PanelAction::ToggleGroupExpand(path) => PanelEffect::ToggleGroupExpand(path),
        PanelAction::SetGroupExpanded(path, v) => PanelEffect::SetGroupExpanded(path, v),
        PanelAction::SetGroupVisible(path, v) => PanelEffect::SetGroupVisible(path, v),
        PanelAction::ZoomToGroup(path) => PanelEffect::ZoomToGroup(path),
        PanelAction::NewGroup(parent) => PanelEffect::NewGroup(parent),
        PanelAction::Ungroup(path) => PanelEffect::Ungroup(path),
        PanelAction::RemoveGroup(path) => PanelEffect::RemoveGroup(path),
        PanelAction::SetAllExpanded(v) => {
            let n = state.layers.len();
            let mut i: usize = 0;
            while i < n
                invariant
                    n == old(state).layers@.len(),
                    n == state.layers@.len(),
                    i <= n,
                    forall|k: int|
                        0 <= k < i ==> #[trigger] state.layers@[k] == (LayerView {
                            expanded: v,
                            ..old(state).layers@[k]
                        }),
                    forall|k: int| i <= k < n ==> #[trigger] state.layers@[k] == old(state).layers@[k],
                    *state == (ShellState { layers: state.layers, ..*old(state) }),
                decreases n - i,
            {
                set_expanded(&mut state.layers, i, v);
                i = i + 1;
            }
            PanelEffect::SetAllGroupsExpanded(v)
        },
        PanelAction::SetAllVisible(v) => {
            let n = state.layers.len();
            let mut i: usize = 0;
            while i < n
                invariant
                    n == old(state).layers@.len(),
                    n == state.layers@.len(),
                    i <= n,
                    forall|k: int|
                        0 <= k < i ==> #[trigger] state.layers@[k] == (LayerView {
                            visible: v,
                            ..old(state).layers@[k]
                        }),
                    forall|k: int| i <= k < n ==> #[trigger] state.layers@[k] == old(state).layers@[k],
                    *state == (ShellState { layers: state.layers, ..*old(state) }),
                decreases n - i,
            {
                set_visible(&mut state.layers, i, v);
                i = i + 1;
            }
            PanelEffect::SetAllGroupsVisible(v)
        },
    }
}

// ===== follow-ups of the application's work =====

/// The selection after removing layer `i`: cleared when it was that layer,
/// shifted down when it was above it.
pub open spec fn selection_after_removal(sel: Option<usize>, i: int) -> Option<usize> {
    match sel {
        Some(s) => if s == i {
            None
        } else if s > i {
            Some((s - 1) as usize)
        } else {
            Some(s)
        },
        None => None,
    }
}

/// Removes the first layer with id `id` (the tree is the application's);
/// the selection follows. Returns the removed layer's former index.
pub fn remove_layer_entry(state: &mut ShellState, id: &str) -> (r: Option<usize>)
    requires
        old(state).wf(),
    ensures
        final(state).wf(),
        match first_layer(old(state).layers@, id@) {
            Some(i) => {
                &&& r == Some(i as usize)
                &&& final(state).layers@ == old(state).layers@.remove(i)
                &&& final(state).selected == selection_after_removal(old(state).selected, i)
                &&& *final(state) == (ShellState {
                    layers: final(state).layers,
                    selected: final(state).selected,
                    ..*old(state)
                })
            },
            None => r is None && *final(state) == *old(state),
        },
{
    match find_layer(&state.layers, id) {
        Some(i) => {
            state.layers.remove(i);
            state.selected = match state.selected {
                Some(s) => if s == i {
                    None
                } else if s > i {
                    Some(s - 1)
                } else {
                    Some(s)
                },
                None => None,
            };
            Some(i)
        },
        None => None,
    }
}

/// Removes a layer from the contents panel (after `PanelEffect::RemoveLayer`
/// the application also drops its tree node and redraws): the layer goes,
/// the selection follows and the terminal names it. `false` when no layer
/// has that id.
pub fn remove_layer(state: &mut ShellState, id: &str) -> (r: bool)
    requires
        old(state).wf(),
    ensures
        final(state).wf(),
        match first_layer(old(state).layers@, id@) {
            Some(i) => {
                &&& r
                &&& final(state).layers@ == old(state).layers@.remove(i)
                &&& final(state).selected == selection_after_removal(old(state).selected, i)
                &&& says(
                    old(state).console,
                    final(state).console,
                    LineKind::Info,
                    seq!["已移除图层 "@ + old(state).layers@[i].file_name@],
                )
                &&& *final(state) == (ShellState {
                    layers: final(state).layers,
                    selected: final(state).selected,
                    console: final(state).console,
                    ..*old(state)
                })
            },
            None => !r && *final(state) == *old(state),
        },
{
    let name = match find_layer(&state.layers, id) {
        Some(i) => state.layers[i].file_name.clone(),
        None => return false,
    };
    remove_layer_entry(state, id);
    let mut t = String::from_str("已移除图层 ");
    t.append(name.as_str());
    say(&mut state.console, t);
    true
}

/// Some registered skill has the id `id`.
pub open spec fn skill_known(skills: Seq<SkillView>, id: Seq<char>) -> bool {
    exists|k: int| 0 <= k < skills.len() && (#[trigger] skills[k]).id@ == id
}

/// The message registering skill `s`: id, version, capabilities, and a note
/// when it replaces one of the same id.
pub open spec fn skill_registered_text(s: SkillView, replaced: bool) -> Seq<char> {
    "技能已注册: "@ + s.id@ + " v"@ + s.version@ + "（能力: "@ + join_seq(
        string_views(s.capabilities@),
        ", "@,
    ) + (if replaced {
        "，覆盖同名"@
    } else {
        seq![]
    }) + "）"@
}

/// After a skill module was loaded (`Ok`, with its description) or refused
/// (`Err`, the check's message): a loaded skill is listed and announced,
/// noting when it replaces one of the same id; a refusal is reported.
pub fn skill_loaded(state: &mut ShellState, loaded: Result<SkillView, String>)
    requires
        old(state).wf(),
    ensures
        final(state).wf(),
        match loaded {
            Ok(s) => {
                &&& final(state).skills@ == old(state).skills@.push(s)
                &&& says(
                    old(state).console,
                    final(state).console,
                    LineKind::Info,
                    seq![skill_registered_text(s, skill_known(old(state).skills@, s.id@))],
                )
                &&& *final(state) == (ShellState {
                    skills: final(state).skills,
                    console: final(state).console,
                    ..*old(state)
                })
            },
            Err(e) => {
                &&& says(
                    old(state).console,
                    final(state).console,
                    LineKind::Error,
                    seq!["技能校验失败: "@ + e@],
                )
                &&& *final(state) == (ShellState { console: final(state).console, ..*old(state) })
            },
        },
{
    match loaded {
        Ok(s) => {
            let n = state.skills.len();
            let mut replaced = false;
            let mut k: usize = 0;
            while k < n
                invariant
                    n == state.skills@.len(),
                    k <= n,
                    replaced == exists|j: int|
                        0 <= j < k && (#[trigger] state.skills@[j]).id@ == s.id@,
                decreases n - k,
            {
                if str_eq(state.skills[k].id.as_str(), s.id.as_str()) {
                    replaced = true;
                }
                k = k + 1;
            }
            let mut t = String::from_str("技能已注册: ");
            t.append(s.id.as_str());
            t.append(" v");
            t.append(s.version.as_str());
            t.append("（能力: ");
            let caps = join(&s.capabilities, ", ");
            t.append(caps.as_str());
            if replaced {
                t.append("，覆盖同名");
            }
            t.append("）");
            proof {
                if !replaced {
                    assert(skill_registered_text(s, false) =~= t@);
                }
            }
            say(&mut state.console, t);
            state.skills.push(s);
        },
        Err(e) => {
            let mut t = String::from_str("技能校验失败: ");
            t.append(e.as_str());
            say_error(&mut state.console, t);
        },
    }
}

/// After the application made a new group at `path`: the terminal names it.
pub fn group_created(state: &mut ShellState, path: &str)
    ensures
        says(old(state).console, final(state).console, LineKind::Info, seq!["已新建图层组「"@ + path@ + "」"@]),
        *final(state) == (ShellState { console: final(state).console, ..*old(state) }),
{
    let mut t = String::from_str("已新建图层组「");
    t.append(path);
    t.append("」");
    say(&mut state.console, t);
}

/// After the application dissolved the group at `path` (`done`) or found
/// nothing to dissolve: a dissolved group is no longer selected and the
/// terminal says its children moved up. Returns whether to redraw.
pub fn group_dissolved(state: &mut ShellState, path: &str, done: bool) -> (r: bool)
    ensures
        r == done,
        !done ==> *final(state) == *old(state),
        done ==> {
            &&& says(
                old(state).console,
                final(state).console,
                LineKind::Info,
                seq!["已取消分组「"@ + path@ + "」（子项上移一级）"@],
            )
            &&& final(state).selected_group == (if old(state).selected_group matches Some(g) && g@
                == path@ {
                None
            } else {
                old(state).selected_group
            })
            &&& *final(state) == (ShellState {
                console: final(state).console,
                selected_group: final(state).selected_group,
                ..*old(state)
            })
        },
{
    if !done {
        return false;
    }
    let clear = match &state.selected_group {
        Some(g) => str_eq(g.as_str(), path),
        None => false,
    };
    if clear {
        state.selected_group = None;
    }
    let mut t = String::from_str("已取消分组「");
    t.append(path);
    t.append("」（子项上移一级）");
    say(&mut state.console, t);
    true
}

/// The layers and selection after removing the layers `ids` one by one.
pub open spec fn without_layers(layers: Seq<LayerView>, sel: Option<usize>, ids: Seq<Seq<char>>) -> (
    Seq<LayerView>,
    Option<usize>,
)
    decreases ids.len(),
{
    if ids.len() == 0 {
        (layers, sel)
    } else {
        let (l, s) = without_layers(layers, sel, ids.drop_last());
        match first_layer(l, ids.last()) {
            Some(i) => (l.remove(i), selection_after_removal(s, i)),
            None => (l, s),
        }
    }
}

/// After the application removed the group at `path` from the tree (`Some`,
/// with the ids of its layers) or found none: its layers go, a removed group
/// is no longer selected, and the terminal names the group and how many
/// layers went with it. Returns whether to redraw.
pub fn group_removed(state: &mut ShellState, path: &str, removed: Option<Vec<String>>) -> (r: bool)
    requires
        old(state).wf(),
    ensures
        final(state).wf(),
        match removed {
            None => !r && *final(state) == *old(state),
            Some(ids) => {
                let after = without_layers(
                    old(state).layers@,
                    old(state).selected,
                    string_views(ids@),
                );
                &&& r
                &&& final(state).layers@ == after.0
                &&& final(state).selected == after.1
                &&& final(state).selected_group == (if old(state).selected_group matches Some(g)
                    && g@ == path@ {
                    None
                } else {
                    old(state).selected_group
                })
                &&& says(
                    old(state).console,
                    final(state).console,
                    LineKind::Info,
                    seq!["已移除组「"@ + path@ + "」及 "@ + dec_seq(ids@.len()) + " 个图层"@],
                )
                &&& *final(state) == (ShellState {
                    layers: final(state).layers,
                    selected: final(state).selected,
                    selected_group: final(state).selected_group,
                    console: final(state).console,
                    ..*old(state)
                })
            },
        },
{
    let ids = match removed {
        Some(ids) => ids,
        None => return false,
    };
    let ghost ws = string_views(ids@);
    let n = ids.len();
    let mut i: usize = 0;
    while i < n
        invariant
            n == ids@.len(),
            ws == string_views(ids@),
            i <= n,
            state.wf(),
            (state.layers@, state.selected) == without_layers(
                old(state).layers@,
                old(state).selected,
                ws.take(i as int),
            ),
            *state == (ShellState {
                layers: state.layers,
                selected: state.selected,
                ..*old(state)
            }),
        decreases n - i,
    {
        assert(ws.take(i + 1).drop_last() =~= ws.take(i as int));
        assert(ws.take(i + 1).last() == ids@[i as int]@);
        remove_layer_entry(state, ids[i].as_str());
        i = i + 1;
    }
    assert(ws.take(n as int) =~= ws);
    let clear = match &state.selected_group {
        Some(g) => str_eq(g.as_str(), path),
        None => false,
    };
    if clear {
        state.selected_group = None;
    }
    let mut t = String::from_str("已移除组「");
    t.append(path);
    t.append("」及 ");
    push_decimal(&mut t, n as u64);
    t.append(" 个图层");
    say(&mut state.console, t);
    true
}

} // verus!
