//! Command registry: every ribbon button, quick-access entry and context-menu
//! entry is declared once here (id, title, icon, description, action and the
//! condition under which it is enabled); the ribbon and menus are projections.

use vstd::prelude::*;

use crate::dock::PanelId;
use crate::edit::EditTool;
use crate::icons::Icon;
use crate::ribbon::{RibbonAction, RibbonTab, tab_layout};
use crate::text::str_eq;

verus! {

/// Global keyboard shortcut.
#[derive(Debug, Clone, Copy, PartialEq, Eq, Structural)]
pub enum AppShortcut {
    /// Ctrl+Z (undo in the editing session).
    Undo,
    /// Ctrl+Y or Ctrl+Shift+Z (redo).
    Redo,
    /// Ctrl+S (save project).
    SaveProject,
}

/// The keys shortcuts are bound to; every other key is `Other`.
#[derive(Debug, Clone, Copy, PartialEq, Eq, Structural)]
pub enum ShortcutKey {
    /// Z.
    Z,
    /// Y.
    Y,
    /// S.
    S,
    /// Any other key.
    Other,
}

/// The shortcut a key press means, with the command (Ctrl/Cmd) and Shift state.
pub open spec fn shortcut_of(key: ShortcutKey, command: bool, shift: bool) -> Option<AppShortcut> {
    if !command {
        None
    } else {
        match key {
            ShortcutKey::Z => if shift {
                Some(AppShortcut::Redo)
            } else {
                Some(AppShortcut::Undo)
            },
            ShortcutKey::Y => Some(AppShortcut::Redo),
            ShortcutKey::S => Some(AppShortcut::SaveProject),
            ShortcutKey::Other => None,
        }
    }
}

/// Matches a key press against the shortcuts (only with the command modifier).
pub fn match_shortcut(key: ShortcutKey, command: bool, shift: bool) -> (r: Option<AppShortcut>)
    ensures
        r == shortcut_of(key, command, shift),
{
    if !command {
        return None;
    }
    match key {
        ShortcutKey::Z => if shift {
            Some(AppShortcut::Redo)
        } else {
            Some(AppShortcut::Undo)
        },
        ShortcutKey::Y => Some(AppShortcut::Redo),
        ShortcutKey::S => Some(AppShortcut::SaveProject),
        ShortcutKey::Other => None,
    }
}

/// Application snapshot the enable conditions are evaluated on.
#[derive(Clone, Copy, Debug, Default)]
pub struct AppSnapshot {
    /// Number of loaded layers.
    pub layer_count: usize,
    /// A layer is selected.
    pub has_selection: bool,
    /// An editing session is active.
    pub editing: bool,
    /// There is something to undo.
    pub can_undo: bool,
    /// There is something to redo.
    pub can_redo: bool,
}

/// Always enabled.
fn always(_s: &AppSnapshot) -> (r: bool)
    ensures
        r,
{
    true
}

/// Enabled when a layer is loaded.
fn has_layers(s: &AppSnapshot) -> (r: bool)
    ensures
        r == (s.layer_count > 0),
{
    s.layer_count > 0
}

/// Enabled when a layer is selected.
fn has_selection(s: &AppSnapshot) -> (r: bool)
    ensures
        r == s.has_selection,
{
    s.has_selection
}

/// Enabled when a layer is selected and no session is active.
fn can_start_edit(s: &AppSnapshot) -> (r: bool)
    ensures
        r == (s.has_selection && !s.editing),
{
    s.has_selection && !s.editing
}

/// Enabled during an editing session.
fn editing(s: &AppSnapshot) -> (r: bool)
    ensures
        r == s.editing,
{
    s.editing
}

/// Enabled when there is something to undo.
fn can_undo(s: &AppSnapshot) -> (r: bool)
    ensures
        r == s.can_undo,
{
    s.can_undo
}

/// Enabled when there is something to redo.
fn can_redo(s: &AppSnapshot) -> (r: bool)
    ensures
        r == s.can_redo,
{
    s.can_redo
}

/// Condition under which a command is enabled.
#[derive(Clone, Copy, PartialEq, Eq, Debug, Structural)]
pub enum Condition {
    /// Always.
    Always,
    /// At least one layer.
    HasLayers,
    /// A layer is selected.
    HasSelection,
    /// A layer is selected and no session is active.
    CanStartEdit,
    /// An editing session is active.
    Editing,
    /// Something to undo.
    CanUndo,
    /// Something to redo.
    CanRedo,
}

/// Whether condition `c` holds of snapshot `s`.
pub open spec fn condition_holds(c: Condition, s: AppSnapshot) -> bool {
    match c {
        Condition::Always => true,
        Condition::HasLayers => s.layer_count > 0,
        Condition::HasSelection => s.has_selection,
        Condition::CanStartEdit => s.has_selection && !s.editing,
        Condition::Editing => s.editing,
        Condition::CanUndo => s.can_undo,
        Condition::CanRedo => s.can_redo,
    }
}

impl Condition {
    /// Evaluates the condition on a snapshot (greyed out when false).
    pub fn holds(self, s: &AppSnapshot) -> (r: bool)
        ensures
            r == condition_holds(self, *s),
    {
        match self {
            Condition::Always => always(s),
            Condition::HasLayers => has_layers(s),
            Condition::HasSelection => has_selection(s),
            Condition::CanStartEdit => can_start_edit(s),
            Condition::Editing => editing(s),
            Condition::CanUndo => can_undo(s),
            Condition::CanRedo => can_redo(s),
        }
    }
}

/// A command definition.
#[derive(Clone, Copy, Debug)]
pub struct CommandDef {
    /// Command id (layout and projection key).
    pub id: &'static str,
    /// Button title.
    pub title: &'static str,
    /// Icon.
    pub icon: Icon,
    /// Hover card title.
    pub desc_title: &'static str,
    /// Hover card body.
    pub desc_body: &'static str,
    /// Action performed.
    pub action: RibbonAction,
    /// Enable condition.
    pub enabled: Condition,
}

/// Builds a command definition.
pub fn cmd(
    id: &'static str,
    title: &'static str,
    icon: Icon,
    desc_title: &'static str,
    desc_body: &'static str,
    action: RibbonAction,
    enabled: Condition,
) -> (r: CommandDef)
    ensures
        r == (CommandDef { id, title, icon, desc_title, desc_body, action, enabled }),
{
    CommandDef { id, title, icon, desc_title, desc_body, action, enabled }
}

/// The registry, in declaration order.
pub open spec fn command_table() -> Seq<CommandDef> {
    seq![
        CommandDef {
            id: "open_data",
            title: "打开数据…",
            icon: Icon::Folder,
            desc_title: "打开地理数据文件",
            desc_body: "支持 shp/geojson/fgb/parquet/dxf/dwg/kml/kmz/csv/xlsx/kdb；也可直接拖文件入窗",
            action: RibbonAction::OpenData,
            enabled: Condition::Always,
        },
        CommandDef {
            id: "open_example",
            title: "打开示例",
            icon: Icon::Example,
            desc_title: "加载内置示例",
            desc_body: "examples/buildings.geojson（3 建筑点 + 1 道路线）",
            action: RibbonAction::OpenExample,
            enabled: Condition::Always,
        },
        CommandDef {
            id: "open_project",
            title: "打开工程…",
            icon: Icon::Export,
            desc_title: "打开堪舆工程 (.kyu)",
            desc_body: "恢复图层清单、可见性、视口与地图色彩设置",
            action: RibbonAction::OpenProject,
            enabled: Condition::Always,
        },
        CommandDef {
            id: "save_project",
            title: "保存工程",
            icon: Icon::Info,
            desc_title: "保存堪舆工程 (.kyu)",
            desc_body: "把当前图层、可见性、视口、地图色彩保存为 .kyu 工程文件（快捷键 Ctrl+S）",
            action: RibbonAction::SaveProject,
            enabled: Condition::Always,
        },
        CommandDef {
            id: "save_screenshot",
            title: "保存截图",
            icon: Icon::Camera,
            desc_title: "窗口截图",
            desc_body: "把当前整个窗口保存为 PNG（含 Ribbon 与面板）",
            action: RibbonAction::SaveScreenshot,
            enabled: Condition::Always,
        },
        CommandDef {
            id: "toggle_theme",
            title: "切换主题",
            icon: Icon::Sun,
            desc_title: "切换界面主题",
            desc_body: "晨山 / 夜观星；只改变界面，不改变地图色彩（见「视图 → 地图色彩」）",
            action: RibbonAction::ToggleTheme,
            enabled: Condition::Always,
        },
        CommandDef {
            id: "settings",
            title: "设置…",
            icon: Icon::Settings,
            desc_title: "设置",
            desc_body: "工程坐标系选择与渲染设置（独立设置对话框，不占功能区）",
            action: RibbonAction::SettingsDialog,
            enabled: Condition::Always,
        },
        CommandDef {
            id: "about",
            title: "关于堪舆",
            icon: Icon::Info,
            desc_title: "关于堪舆",
            desc_body: "版本、架构、许可证",
            action: RibbonAction::About,
            enabled: Condition::Always,
        },
        CommandDef {
            id: "layer_info",
            title: "图层概要",
            icon: Icon::Info,
            desc_title: "图层概要",
            desc_body: "当前图层的要素数/几何类型/字段（输出到终端）",
            action: RibbonAction::LayerInfo,
            enabled: Condition::HasSelection,
        },
        CommandDef {
            id: "query",
            title: "属性查询…",
            icon: Icon::Funnel,
            desc_title: "属性查询",
            desc_body: "如 height > 50；结果存为新图层",
            action: RibbonAction::QueryDialog,
            enabled: Condition::HasLayers,
        },
        CommandDef {
            id: "export_layer",
            title: "导出图层…",
            icon: Icon::Export,
            desc_title: "导出图层",
            desc_body: "geojson/csv/fgb/parquet/dxf/kml/kmz/shp/kdb 全格式互转",
            action: RibbonAction::ExportDialog,
            enabled: Condition::HasLayers,
        },
        CommandDef {
            id: "reproject",
            title: "投影变换…",
            icon: Icon::Compass,
            desc_title: "投影变换",
            desc_body: "EPSG 全库（如 4326 → 3857），结果存为新图层",
            action: RibbonAction::ReprojectDialog,
            enabled: Condition::HasLayers,
        },
        CommandDef {
            id: "buffer",
            title: "缓冲区…",
            icon: Icon::Buffer,
            desc_title: "缓冲区分析",
            desc_body: "按距离生成缓冲区（结果存为新图层；米制请先投影）",
            action: RibbonAction::BufferDialog,
            enabled: Condition::HasLayers,
        },
        CommandDef {
            id: "overlay",
            title: "叠加分析…",
            icon: Icon::Overlay,
            desc_title: "叠加分析",
            desc_body: "union/intersection/difference/xor（两个面图层）",
            action: RibbonAction::OverlayDialog,
            enabled: Condition::HasLayers,
        },
        CommandDef {
            id: "topology",
            title: "拓扑检查",
            icon: Icon::Topology,
            desc_title: "拓扑检查",
            desc_body: "no_overlap 规则（结果输出到终端）",
            action: RibbonAction::Topology,
            enabled: Condition::HasSelection,
        },
        CommandDef {
            id: "sjoin",
            title: "空间连接…",
            icon: Icon::Link,
            desc_title: "空间连接",
            desc_body: "按空间谓词合并两图层属性（左连接 + explode）",
            action: RibbonAction::SjoinDialog,
            enabled: Condition::HasLayers,
        },
        CommandDef {
            id: "zonal",
            title: "分区统计…",
            icon: Icon::Grid,
            desc_title: "分区统计",
            desc_body: "面要素分区统计数值字段（count/sum/mean/min/max）",
            action: RibbonAction::ZonalDialog,
            enabled: Condition::HasLayers,
        },
        CommandDef {
            id: "measure",
            title: "测地度量…",
            icon: Icon::Ruler,
            desc_title: "测地线度量",
            desc_body: "Karney 2013 测地线长度/面积（米/平方米）",
            action: RibbonAction::MeasureDialog,
            enabled: Condition::HasLayers,
        },
        CommandDef {
            id: "export_map",
            title: "导出地图…",
            icon: Icon::Export,
            desc_title: "导出地图",
            desc_body: "当前视图导出为 PNG / SVG（尺寸/样式在「设置 → 渲染」，色彩由「视图 → 地图色彩」决定）",
            action: RibbonAction::ExportMapDialog,
            enabled: Condition::HasLayers,
        },
        CommandDef {
            id: "estate_map",
            title: "不动产制图…",
            icon: Icon::Image,
            desc_title: "不动产制图",
            desc_body: "宗地图/房产图/宗海图/用岛图等九图种出图（比例尺与 DPI 可设，输出路径确定后选择）",
            action: RibbonAction::EstateMapDialog,
            enabled: Condition::HasLayers,
        },
        CommandDef {
            id: "zoom_fit",
            title: "缩放到图层",
            icon: Icon::ZoomFit,
            desc_title: "缩放到图层",
            desc_body: "全部可见图层的数据范围",
            action: RibbonAction::ZoomToFit,
            enabled: Condition::HasLayers,
        },
        CommandDef {
            id: "reset_view",
            title: "复位视图",
            icon: Icon::Reset,
            desc_title: "复位视图",
            desc_body: "恢复初始相机",
            action: RibbonAction::ResetView,
            enabled: Condition::Always,
        },
        CommandDef {
            id: "new_frame_2d",
            title: "新建二维地图框",
            icon: Icon::Image,
            desc_title: "新建二维地图框",
            desc_body: "创建二维地图框并激活（绑定自有图层集；目录「地图框」可管理）",
            action: RibbonAction::NewFrame2D,
            enabled: Condition::Always,
        },
        CommandDef {
            id: "new_frame_3d",
            title: "新建三维场景",
            icon: Icon::Compass,
            desc_title: "新建三维场景",
            desc_body: "创建三维场景框并激活（实验性软件 3D；二维/三维分开建立）",
            action: RibbonAction::NewFrame3D,
            enabled: Condition::Always,
        },
        CommandDef {
            id: "panel_catalog",
            title: "目录",
            icon: Icon::Folder,
            desc_title: "目录面板",
            desc_body: "显示/关闭目录面板（页签可拖动改停靠、拖到画布变浮动窗）",
            action: RibbonAction::TogglePanel(PanelId::Catalog),
            enabled: Condition::Always,
        },
        CommandDef {
            id: "panel_layers",
            title: "图层",
            icon: Icon::Layers,
            desc_title: "图层面板",
            desc_body: "显示/关闭图层面板（Contents 目录树）",
            action: RibbonAction::TogglePanel(PanelId::Layers),
            enabled: Condition::Always,
        },
        CommandDef {
            id: "panel_toolbox",
            title: "工具箱",
            icon: Icon::Toolbox,
            desc_title: "工具箱面板",
            desc_body: "显示/关闭工具箱面板（QGIS Processing 式算法清单）",
            action: RibbonAction::TogglePanel(PanelId::Toolbox),
            enabled: Condition::Always,
        },
        CommandDef {
            id: "panel_attrtable",
            title: "属性表",
            icon: Icon::Field,
            desc_title: "属性表面板",
            desc_body: "显示/关闭属性表面板（字段表格 + 字段计算器）",
            action: RibbonAction::TogglePanel(PanelId::AttrTable),
            enabled: Condition::Always,
        },
        CommandDef {
            id: "panel_console",
            title: "终端",
            icon: Icon::PanelBottom,
            desc_title: "终端面板",
            desc_body: "显示/关闭终端面板（命令直达内核）",
            action: RibbonAction::TogglePanel(PanelId::Console),
            enabled: Condition::Always,
        },
        CommandDef {
            id: "panel_aichat",
            title: "AI 对话",
            icon: Icon::Chat,
            desc_title: "AI 对话面板",
            desc_body: "显示/关闭 AI 对话面板（自然语言驱动分析）",
            action: RibbonAction::TogglePanel(PanelId::AiChat),
            enabled: Condition::Always,
        },
        CommandDef {
            id: "map_theme",
            title: "地图色彩",
            icon: Icon::Sun,
            desc_title: "地图色彩模式",
            desc_body: "固定晨山 → 固定夜观星 → 跟随界面（默认固定晨山，保证制图输出正确）",
            action: RibbonAction::CycleMapTheme,
            enabled: Condition::Always,
        },
        CommandDef {
            id: "skill_hotload",
            title: "热加载…",
            icon: Icon::Skill,
            desc_title: "热加载技能",
            desc_body: "加载并校验 .wasm 技能（wasmtime 沙箱 + fuel 配额）",
            action: RibbonAction::SkillHotload,
            enabled: Condition::Always,
        },
        CommandDef {
            id: "skill_list",
            title: "技能清单",
            icon: Icon::List,
            desc_title: "技能清单",
            desc_body: "已注册技能（输出到终端）",
            action: RibbonAction::SkillList,
            enabled: Condition::Always,
        },
        CommandDef {
            id: "skill_run",
            title: "运行技能…",
            icon: Icon::Play,
            desc_title: "运行技能",
            desc_body: "在选定图层上执行技能，结果存为新图层",
            action: RibbonAction::SkillRunDialog,
            enabled: Condition::HasLayers,
        },
        CommandDef {
            id: "help",
            title: "命令速查",
            icon: Icon::Help,
            desc_title: "命令速查",
            desc_body: "终端命令速查（输出到终端）",
            action: RibbonAction::ShowHelp,
            enabled: Condition::Always,
        },
        CommandDef {
            id: "start_edit",
            title: "开始编辑",
            icon: Icon::Play,
            desc_title: "开始编辑会话",
            desc_body: "以当前选中图层为目标开启编辑（同一时刻仅一个图层可编辑）",
            action: RibbonAction::StartEdit,
            enabled: Condition::CanStartEdit,
        },
        CommandDef {
            id: "save_edit",
            title: "保存编辑",
            icon: Icon::Export,
            desc_title: "保存编辑",
            desc_body: "结束编辑会话（编辑即时生效；落盘请用「导出图层」）",
            action: RibbonAction::SaveEdit,
            enabled: Condition::Editing,
        },
        CommandDef {
            id: "discard_edit",
            title: "放弃编辑",
            icon: Icon::Close,
            desc_title: "放弃编辑",
            desc_body: "逐条撤销到会话起点并结束会话",
            action: RibbonAction::DiscardEdit,
            enabled: Condition::Editing,
        },
        CommandDef {
            id: "edit_select",
            title: "选择",
            icon: Icon::Info,
            desc_title: "选择工具",
            desc_body: "点击画布要素选中（空白处取消）",
            action: RibbonAction::SetEditTool(EditTool::Select),
            enabled: Condition::Editing,
        },
        CommandDef {
            id: "edit_vertex",
            title: "顶点编辑",
            icon: Icon::Field,
            desc_title: "顶点编辑工具",
            desc_body: "拖拽顶点句柄移动顶点（MoveVertex 命令入历史）",
            action: RibbonAction::SetEditTool(EditTool::Vertex),
            enabled: Condition::Editing,
        },
        CommandDef {
            id: "edit_move",
            title: "移动要素",
            icon: Icon::Reset,
            desc_title: "移动要素工具",
            desc_body: "拖动要素整体平移",
            action: RibbonAction::SetEditTool(EditTool::Move),
            enabled: Condition::Editing,
        },
        CommandDef {
            id: "edit_add_point",
            title: "添加点",
            icon: Icon::Example,
            desc_title: "添加点工具",
            desc_body: "点击画布插入点要素（InsertFeature 命令入历史）",
            action: RibbonAction::SetEditTool(EditTool::AddPoint),
            enabled: Condition::Editing,
        },
        CommandDef {
            id: "edit_add_line",
            title: "添加线",
            icon: Icon::Ruler,
            desc_title: "添加线工具",
            desc_body: "单击加顶点，双击/Enter 完成（≥2 点），Backspace 撤点，Esc 放弃",
            action: RibbonAction::SetEditTool(EditTool::AddLine),
            enabled: Condition::Editing,
        },
        CommandDef {
            id: "edit_add_polygon",
            title: "添加面",
            icon: Icon::Grid,
            desc_title: "添加面工具",
            desc_body: "单击加顶点，双击/Enter 完成并自动闭合（≥3 点），Backspace 撤点，Esc 放弃",
            action: RibbonAction::SetEditTool(EditTool::AddPolygon),
            enabled: Condition::Editing,
        },
        CommandDef {
            id: "edit_add_hole",
            title: "添加洞",
            icon: Icon::Overlay,
            desc_title: "添加洞工具",
            desc_body: "面图层：在目标面内绘制闭合环（完全在面内才生效），MultiPolygon 按子面定位",
            action: RibbonAction::SetEditTool(EditTool::AddHole),
            enabled: Condition::Editing,
        },
        CommandDef {
            id: "edit_split",
            title: "分割要素",
            icon: Icon::Grid,
            desc_title: "分割要素工具",
            desc_body: "绘制切割线（双击完成）切分面要素；单击线要素在点击处打断为两段（一次撤销）",
            action: RibbonAction::SetEditTool(EditTool::Split),
            enabled: Condition::Editing,
        },
        CommandDef {
            id: "edit_snap",
            title: "捕捉",
            icon: Icon::Topology,
            desc_title: "顶点捕捉开关",
            desc_body: "绘制/顶点编辑时吸附 10px 内既有顶点（默认开）",
            action: RibbonAction::ToggleEditSnap,
            enabled: Condition::Editing,
        },
        CommandDef {
            id: "edit_topo",
            title: "拓扑编辑",
            icon: Icon::Link,
            desc_title: "拓扑编辑开关",
            desc_body: "开时顶点拖拽联动全部共享该顶点的要素（当前图层范围，一次撤销；默认关）",
            action: RibbonAction::ToggleEditTopo,
            enabled: Condition::Editing,
        },
        CommandDef {
            id: "edit_delete",
            title: "删除要素",
            icon: Icon::Close,
            desc_title: "删除要素",
            desc_body: "点选要素后按 Delete 键或再次点击删除",
            action: RibbonAction::SetEditTool(EditTool::Delete),
            enabled: Condition::Editing,
        },
        CommandDef {
            id: "undo",
            title: "撤销",
            icon: Icon::Reset,
            desc_title: "撤销",
            desc_body: "撤销一步编辑（编辑会话历史；快捷键 Ctrl+Z）",
            action: RibbonAction::Undo,
            enabled: Condition::CanUndo,
        },
        CommandDef {
            id: "redo",
            title: "重做",
            icon: Icon::Play,
            desc_title: "重做",
            desc_body: "重做一步编辑（快捷键 Ctrl+Y / Ctrl+Shift+Z）",
            action: RibbonAction::Redo,
            enabled: Condition::CanRedo,
        },
    ]
}

/// The registry (ribbon buttons, quick access and context menus share it).
#[verifier::rlimit(50)]
pub fn commands() -> (v: Vec<CommandDef>)
    ensures
        v@ == command_table(),
{
    let mut v: Vec<CommandDef> = Vec::new();
    v.push(cmd(
        "open_data",
        "打开数据…",
        Icon::Folder,
        "打开地理数据文件",
        "支持 shp/geojson/fgb/parquet/dxf/dwg/kml/kmz/csv/xlsx/kdb；也可直接拖文件入窗",
        RibbonAction::OpenData,
        Condition::Always,
    ));
    v.push(cmd(
        "open_example",
        "打开示例",
        Icon::Example,
        "加载内置示例",
        "examples/buildings.geojson（3 建筑点 + 1 道路线）",
        RibbonAction::OpenExample,
        Condition::Always,
    ));
    v.push(cmd(
        "open_project",
        "打开工程…",
        Icon::Export,
        "打开堪舆工程 (.kyu)",
        "恢复图层清单、可见性、视口与地图色彩设置",
        RibbonAction::OpenProject,
        Condition::Always,
    ));
    v.push(cmd(
        "save_project",
        "保存工程",
        Icon::Info,
        "保存堪舆工程 (.kyu)",
        "把当前图层、可见性、视口、地图色彩保存为 .kyu 工程文件（快捷键 Ctrl+S）",
        RibbonAction::SaveProject,
        Condition::Always,
    ));
    v.push(cmd(
        "save_screenshot",
        "保存截图",
        Icon::Camera,
        "窗口截图",
        "把当前整个窗口保存为 PNG（含 Ribbon 与面板）",
        RibbonAction::SaveScreenshot,
        Condition::Always,
    ));
    v.push(cmd(
        "toggle_theme",
        "切换主题",
        Icon::Sun,
        "切换界面主题",
        "晨山 / 夜观星；只改变界面，不改变地图色彩（见「视图 → 地图色彩」）",
        RibbonAction::ToggleTheme,
        Condition::Always,
    ));
    v.push(cmd(
        "settings",
        "设置…",
        Icon::Settings,
        "设置",
        "工程坐标系选择与渲染设置（独立设置对话框，不占功能区）",
        RibbonAction::SettingsDialog,
        Condition::Always,
    ));
    v.push(cmd(
        "about",
        "关于堪舆",
        Icon::Info,
        "关于堪舆",
        "版本、架构、许可证",
        RibbonAction::About,
        Condition::Always,
    ));
    v.push(cmd(
        "layer_info",
        "图层概要",
        Icon::Info,
        "图层概要",
        "当前图层的要素数/几何类型/字段（输出到终端）",
        RibbonAction::LayerInfo,
        Condition::HasSelection,
    ));
    v.push(cmd(
        "query",
        "属性查询…",
        Icon::Funnel,
        "属性查询",
        "如 height > 50；结果存为新图层",
        RibbonAction::QueryDialog,
        Condition::HasLayers,
    ));
    v.push(cmd(
        "export_layer",
        "导出图层…",
        Icon::Export,
        "导出图层",
        "geojson/csv/fgb/parquet/dxf/kml/kmz/shp/kdb 全格式互转",
        RibbonAction::ExportDialog,
        Condition::HasLayers,
    ));
    v.push(cmd(
        "reproject",
        "投影变换…",
        Icon::Compass,
        "投影变换",
        "EPSG 全库（如 4326 → 3857），结果存为新图层",
        RibbonAction::ReprojectDialog,
        Condition::HasLayers,
    ));
    v.push(cmd(
        "buffer",
        "缓冲区…",
        Icon::Buffer,
        "缓冲区分析",
        "按距离生成缓冲区（结果存为新图层；米制请先投影）",
        RibbonAction::BufferDialog,
        Condition::HasLayers,
    ));
    v.push(cmd(
        "overlay",
        "叠加分析…",
        Icon::Overlay,
        "叠加分析",
        "union/intersection/difference/xor（两个面图层）",
        RibbonAction::OverlayDialog,
        Condition::HasLayers,
    ));
    v.push(cmd(
        "topology",
        "拓扑检查",
        Icon::Topology,
        "拓扑检查",
        "no_overlap 规则（结果输出到终端）",
        RibbonAction::Topology,
        Condition::HasSelection,
    ));
    v.push(cmd(
        "sjoin",
        "空间连接…",
        Icon::Link,
        "空间连接",
        "按空间谓词合并两图层属性（左连接 + explode）",
        RibbonAction::SjoinDialog,
        Condition::HasLayers,
    ));
    v.push(cmd(
        "zonal",
        "分区统计…",
        Icon::Grid,
        "分区统计",
        "面要素分区统计数值字段（count/sum/mean/min/max）",
        RibbonAction::ZonalDialog,
        Condition::HasLayers,
    ));
    v.push(cmd(
        "measure",
        "测地度量…",
        Icon::Ruler,
        "测地线度量",
        "Karney 2013 测地线长度/面积（米/平方米）",
        RibbonAction::MeasureDialog,
        Condition::HasLayers,
    ));
    v.push(cmd(
        "export_map",
        "导出地图…",
        Icon::Export,
        "导出地图",
        "当前视图导出为 PNG / SVG（尺寸/样式在「设置 → 渲染」，色彩由「视图 → 地图色彩」决定）",
        RibbonAction::ExportMapDialog,
        Condition::HasLayers,
    ));
    v.push(cmd(
        "estate_map",
        "不动产制图…",
        Icon::Image,
        "不动产制图",
        "宗地图/房产图/宗海图/用岛图等九图种出图（比例尺与 DPI 可设，输出路径确定后选择）",
        RibbonAction::EstateMapDialog,
        Condition::HasLayers,
    ));
    v.push(cmd(
        "zoom_fit",
        "缩放到图层",
        Icon::ZoomFit,
        "缩放到图层",
        "全部可见图层的数据范围",
        RibbonAction::ZoomToFit,
        Condition::HasLayers,
    ));
    v.push(cmd(
        "reset_view",
        "复位视图",
        Icon::Reset,
        "复位视图",
        "恢复初始相机",
        RibbonAction::ResetView,
        Condition::Always,
    ));
    v.push(cmd(
        "new_frame_2d",
        "新建二维地图框",
        Icon::Image,
        "新建二维地图框",
        "创建二维地图框并激活（绑定自有图层集；目录「地图框」可管理）",
        RibbonAction::NewFrame2D,
        Condition::Always,
    ));
    v.push(cmd(
        "new_frame_3d",
        "新建三维场景",
        Icon::Compass,
        "新建三维场景",
        "创建三维场景框并激活（实验性软件 3D；二维/三维分开建立）",
        RibbonAction::NewFrame3D,
        Condition::Always,
    ));
    v.push(cmd(
        "panel_catalog",
        "目录",
        Icon::Folder,
        "目录面板",
        "显示/关闭目录面板（页签可拖动改停靠、拖到画布变浮动窗）",
        RibbonAction::TogglePanel(PanelId::Catalog),
        Condition::Always,
    ));
    v.push(cmd(
        "panel_layers",
        "图层",
        Icon::Layers,
        "图层面板",
        "显示/关闭图层面板（Contents 目录树）",
        RibbonAction::TogglePanel(PanelId::Layers),
        Condition::Always,
    ));
    v.push(cmd(
        "panel_toolbox",
        "工具箱",
        Icon::Toolbox,
        "工具箱面板",
        "显示/关闭工具箱面板（QGIS Processing 式算法清单）",
        RibbonAction::TogglePanel(PanelId::Toolbox),
        Condition::Always,
    ));
    v.push(cmd(
        "panel_attrtable",
        "属性表",
        Icon::Field,
        "属性表面板",
        "显示/关闭属性表面板（字段表格 + 字段计算器）",
        RibbonAction::TogglePanel(PanelId::AttrTable),
        Condition::Always,
    ));
    v.push(cmd(
        "panel_console",
        "终端",
        Icon::PanelBottom,
        "终端面板",
        "显示/关闭终端面板（命令直达内核）",
        RibbonAction::TogglePanel(PanelId::Console),
        Condition::Always,
    ));
    v.push(cmd(
        "panel_aichat",
        "AI 对话",
        Icon::Chat,
        "AI 对话面板",
        "显示/关闭 AI 对话面板（自然语言驱动分析）",
        RibbonAction::TogglePanel(PanelId::AiChat),
        Condition::Always,
    ));
    v.push(cmd(
        "map_theme",
        "地图色彩",
        Icon::Sun,
        "地图色彩模式",
        "固定晨山 → 固定夜观星 → 跟随界面（默认固定晨山，保证制图输出正确）",
        RibbonAction::CycleMapTheme,
        Condition::Always,
    ));
    v.push(cmd(
        "skill_hotload",
        "热加载…",
        Icon::Skill,
        "热加载技能",
        "加载并校验 .wasm 技能（wasmtime 沙箱 + fuel 配额）",
        RibbonAction::SkillHotload,
        Condition::Always,
    ));
    v.push(cmd(
        "skill_list",
        "技能清单",
        Icon::List,
        "技能清单",
        "已注册技能（输出到终端）",
        RibbonAction::SkillList,
        Condition::Always,
    ));
    v.push(cmd(
        "skill_run",
        "运行技能…",
        Icon::Play,
        "运行技能",
        "在选定图层上执行技能，结果存为新图层",
        RibbonAction::SkillRunDialog,
        Condition::HasLayers,
    ));
    v.push(cmd(
        "help",
        "命令速查",
        Icon::Help,
        "命令速查",
        "终端命令速查（输出到终端）",
        RibbonAction::ShowHelp,
        Condition::Always,
    ));
    v.push(cmd(
        "start_edit",
        "开始编辑",
        Icon::Play,
        "开始编辑会话",
        "以当前选中图层为目标开启编辑（同一时刻仅一个图层可编辑）",
        RibbonAction::StartEdit,
        Condition::CanStartEdit,
    ));
    v.push(cmd(
        "save_edit",
        "保存编辑",
        Icon::Export,
        "保存编辑",
        "结束编辑会话（编辑即时生效；落盘请用「导出图层」）",
        RibbonAction::SaveEdit,
        Condition::Editing,
    ));
    v.push(cmd(
        "discard_edit",
        "放弃编辑",
        Icon::Close,
        "放弃编辑",
        "逐条撤销到会话起点并结束会话",
        RibbonAction::DiscardEdit,
        Condition::Editing,
    ));
    v.push(cmd(
        "edit_select",
        "选择",
        Icon::Info,
        "选择工具",
        "点击画布要素选中（空白处取消）",
        RibbonAction::SetEditTool(EditTool::Select),
        Condition::Editing,
    ));
    v.push(cmd(
        "edit_vertex",
        "顶点编辑",
        Icon::Field,
        "顶点编辑工具",
        "拖拽顶点句柄移动顶点（MoveVertex 命令入历史）",
        RibbonAction::SetEditTool(EditTool::Vertex),
        Condition::Editing,
    ));
    v.push(cmd(
        "edit_move",
        "移动要素",
        Icon::Reset,
        "移动要素工具",
        "拖动要素整体平移",
        RibbonAction::SetEditTool(EditTool::Move),
        Condition::Editing,
    ));
    v.push(cmd(
        "edit_add_point",
        "添加点",
        Icon::Example,
        "添加点工具",
        "点击画布插入点要素（InsertFeature 命令入历史）",
        RibbonAction::SetEditTool(EditTool::AddPoint),
        Condition::Editing,
    ));
    v.push(cmd(
        "edit_add_line",
        "添加线",
        Icon::Ruler,
        "添加线工具",
        "单击加顶点，双击/Enter 完成（≥2 点），Backspace 撤点，Esc 放弃",
        RibbonAction::SetEditTool(EditTool::AddLine),
        Condition::Editing,
    ));
    v.push(cmd(
        "edit_add_polygon",
        "添加面",
        Icon::Grid,
        "添加面工具",
        "单击加顶点，双击/Enter 完成并自动闭合（≥3 点），Backspace 撤点，Esc 放弃",
        RibbonAction::SetEditTool(EditTool::AddPolygon),
        Condition::Editing,
    ));
    v.push(cmd(
        "edit_add_hole",
        "添加洞",
        Icon::Overlay,
        "添加洞工具",
        "面图层：在目标面内绘制闭合环（完全在面内才生效），MultiPolygon 按子面定位",
        RibbonAction::SetEditTool(EditTool::AddHole),
        Condition::Editing,
    ));
    v.push(cmd(
        "edit_split",
        "分割要素",
        Icon::Grid,
        "分割要素工具",
        "绘制切割线（双击完成）切分面要素；单击线要素在点击处打断为两段（一次撤销）",
        RibbonAction::SetEditTool(EditTool::Split),
        Condition::Editing,
    ));
    v.push(cmd(
        "edit_snap",
        "捕捉",
        Icon::Topology,
        "顶点捕捉开关",
        "绘制/顶点编辑时吸附 10px 内既有顶点（默认开）",
        RibbonAction::ToggleEditSnap,
        Condition::Editing,
    ));
    v.push(cmd(
        "edit_topo",
        "拓扑编辑",
        Icon::Link,
        "拓扑编辑开关",
        "开时顶点拖拽联动全部共享该顶点的要素（当前图层范围，一次撤销；默认关）",
        RibbonAction::ToggleEditTopo,
        Condition::Editing,
    ));
    v.push(cmd(
        "edit_delete",
        "删除要素",
        Icon::Close,
        "删除要素",
        "点选要素后按 Delete 键或再次点击删除",
        RibbonAction::SetEditTool(EditTool::Delete),
        Condition::Editing,
    ));
    v.push(cmd(
        "undo",
        "撤销",
        Icon::Reset,
        "撤销",
        "撤销一步编辑（编辑会话历史；快捷键 Ctrl+Z）",
        RibbonAction::Undo,
        Condition::CanUndo,
    ));
    v.push(cmd(
        "redo",
        "重做",
        Icon::Play,
        "重做",
        "重做一步编辑（快捷键 Ctrl+Y / Ctrl+Shift+Z）",
        RibbonAction::Redo,
        Condition::CanRedo,
    ));
    assert(v@ =~= command_table());
    v
}

/// Index of the first registry entry whose id is `id`.
pub open spec fn first_with_id(id: Seq<char>, i: int) -> bool {
    &&& 0 <= i < command_table().len()
    &&& command_table()[i].id@ == id
    &&& forall|j: int| 0 <= j < i ==> command_table()[j].id@ != id
}

/// Looks a command up by id: the first registry entry with that id, or `None`.
pub fn find(id: &str) -> (r: Option<CommandDef>)
    ensures
        match r {
            Some(c) => exists|i: int| first_with_id(id@, i) && command_table()[i] == c,
            None => forall|j: int|
                0 <= j < command_table().len() ==> (#[trigger] command_table()[j]).id@ != id@,
        },
{
    let v = commands();
    let n = v.len();
    let mut i: usize = 0;
    while i < n
        invariant
            n == v@.len(),
            v@ == command_table(),
            i <= n,
            forall|j: int| 0 <= j < i ==> command_table()[j].id@ != id@,
        decreases n - i,
    {
        if str_eq(v[i].id, id) {
            assert(first_with_id(id@, i as int));
            return Some(v[i]);
        }
        i = i + 1;
    }
    None
}

/// Quick-access bar command ids (left to right).
pub const QAT_COMMANDS: [&'static str; 2] = ["save_project", "settings"];


/// Some registry entry has the id `id`.
pub open spec fn registered(id: Seq<char>) -> bool {
    exists|i: int| 0 <= i < command_table().len() && #[trigger] command_table()[i].id@ == id
}

/// Every command id that a ribbon layout names is in the registry.
pub proof fn law_layout_ids_registered(tab: RibbonTab)
    ensures
        forall|g: int, k: int|
            0 <= g < tab_layout(tab).len() && 0 <= k < tab_layout(tab)[g].1.len() ==> registered(
                #[trigger] tab_layout(tab)[g].1[k],
            ),
{
    assert(command_table()[0].id@ == "open_data"@);
    assert(command_table()[1].id@ == "open_example"@);
    assert(command_table()[2].id@ == "open_project"@);
    assert(command_table()[3].id@ == "save_project"@);
    assert(command_table()[4].id@ == "save_screenshot"@);
    assert(command_table()[5].id@ == "toggle_theme"@);
    assert(command_table()[6].id@ == "settings"@);
    assert(command_table()[7].id@ == "about"@);
    assert(command_table()[8].id@ == "layer_info"@);
    assert(command_table()[9].id@ == "query"@);
    assert(command_table()[10].id@ == "export_layer"@);
    assert(command_table()[11].id@ == "reproject"@);
    assert(command_table()[35].id@ == "start_edit"@);
    assert(command_table()[36].id@ == "save_edit"@);
    assert(command_table()[37].id@ == "discard_edit"@);
    assert(command_table()[38].id@ == "edit_select"@);
    assert(command_table()[39].id@ == "edit_vertex"@);
    assert(command_table()[40].id@ == "edit_move"@);
    assert(command_table()[41].id@ == "edit_add_point"@);
    assert(command_table()[42].id@ == "edit_add_line"@);
    assert(command_table()[43].id@ == "edit_add_polygon"@);
    assert(command_table()[44].id@ == "edit_add_hole"@);
    assert(command_table()[45].id@ == "edit_split"@);
    assert(command_table()[48].id@ == "edit_delete"@);
    assert(command_table()[46].id@ == "edit_snap"@);
    assert(command_table()[47].id@ == "edit_topo"@);
    assert(command_table()[49].id@ == "undo"@);
    assert(command_table()[50].id@ == "redo"@);
    assert(command_table()[12].id@ == "buffer"@);
    assert(command_table()[13].id@ == "overlay"@);
    assert(command_table()[14].id@ == "topology"@);
    assert(command_table()[15].id@ == "sjoin"@);
    assert(command_table()[16].id@ == "zonal"@);
    assert(command_table()[17].id@ == "measure"@);
    assert(command_table()[18].id@ == "export_map"@);
    assert(command_table()[19].id@ == "estate_map"@);
    assert(command_table()[20].id@ == "zoom_fit"@);
    assert(command_table()[21].id@ == "reset_view"@);
    assert(command_table()[22].id@ == "new_frame_2d"@);
    assert(command_table()[23].id@ == "new_frame_3d"@);
    assert(command_table()[24].id@ == "panel_catalog"@);
    assert(command_table()[25].id@ == "panel_layers"@);
    assert(command_table()[26].id@ == "panel_toolbox"@);
    assert(command_table()[27].id@ == "panel_attrtable"@);
    assert(command_table()[28].id@ == "panel_console"@);
    assert(command_table()[29].id@ == "panel_aichat"@);
    assert(command_table()[30].id@ == "map_theme"@);
    assert(command_table()[31].id@ == "skill_hotload"@);
    assert(command_table()[32].id@ == "skill_list"@);
    assert(command_table()[33].id@ == "skill_run"@);
    assert(command_table()[34].id@ == "help"@);
    assert(command_table()[7].id@ == "about"@);
}

/// The quick-access bar only names registered commands.
pub proof fn law_quick_access_registered()
    ensures
        forall|k: int| 0 <= k < 2 ==> registered(#[trigger] QAT_COMMANDS@[k]@),
{
    assert(command_table()[3].id@ == "save_project"@);
    assert(command_table()[6].id@ == "settings"@);
    assert(QAT_COMMANDS@[0] == "save_project");
    assert(QAT_COMMANDS@[1] == "settings");
}

/// A tab's layout names a command whose action is `action`.
pub open spec fn reachable(action: RibbonAction) -> bool {
    exists|t: RibbonTab, g: int, k: int, i: int|
        0 <= g < tab_layout(t).len() && 0 <= k < tab_layout(t)[g].1.len() && 0 <= i
            < command_table().len() && #[trigger] command_table()[i].id@ == #[trigger] tab_layout(
            t,
        )[g].1[k] && command_table()[i].action == action
}

/// The project, map-colour, analysis, output, skill and about actions can all be
/// reached from some ribbon tab.
pub proof fn law_key_actions_reachable()
    ensures
        reachable(RibbonAction::OpenData),
        reachable(RibbonAction::OpenProject),
        reachable(RibbonAction::SaveProject),
        reachable(RibbonAction::CycleMapTheme),
        reachable(RibbonAction::BufferDialog),
        reachable(RibbonAction::ExportMapDialog),
        reachable(RibbonAction::EstateMapDialog),
        reachable(RibbonAction::SkillHotload),
        reachable(RibbonAction::About),
{
    assert(command_table()[0].id@ == tab_layout(RibbonTab::Home)[0].1[0]);
    assert(command_table()[2].id@ == tab_layout(RibbonTab::Home)[0].1[2]);
    assert(command_table()[3].id@ == tab_layout(RibbonTab::Home)[0].1[3]);
    assert(command_table()[30].id@ == tab_layout(RibbonTab::View)[2].1[0]);
    assert(command_table()[12].id@ == tab_layout(RibbonTab::Analysis)[0].1[0]);
    assert(command_table()[18].id@ == tab_layout(RibbonTab::Cartography)[0].1[0]);
    assert(command_table()[19].id@ == tab_layout(RibbonTab::Cartography)[0].1[1]);
    assert(command_table()[31].id@ == tab_layout(RibbonTab::Skill)[0].1[0]);
    assert(command_table()[7].id@ == tab_layout(RibbonTab::Home)[2].1[0]);
}

/// The ids of the registry, in order.
pub open spec fn command_ids() -> Seq<Seq<char>> {
    command_table().map_values(|c: CommandDef| c.id@)
}

/// Adding an element that is not there keeps a sequence free of repeats.
proof fn lemma_push_no_duplicates(s: Seq<Seq<char>>, x: Seq<char>)
    requires
        s.no_duplicates(),
        !s.contains(x),
    ensures
        s.push(x).no_duplicates(),
{
    let t = s.push(x);
    assert forall|i: int, j: int| 0 <= i < t.len() && 0 <= j < t.len() && i != j implies t[i] != t[j] by {
        if i == s.len() {
            assert(s[j] == t[j]);
        } else if j == s.len() {
            assert(s[i] == t[i]);
        } else {
            assert(s[i] == t[i] && s[j] == t[j]);
        }
    }
}

/// Every command has its own id.
#[verifier::rlimit(100)]
pub proof fn law_command_ids_unique()
    ensures
        command_ids().no_duplicates(),
        forall|i: int, j: int|
            0 <= i < j < command_table().len() ==> (#[trigger] command_table()[i]).id@ != (
            #[trigger] command_table()[j]).id@,
{
    broadcast use vstd::seq_lib::lemma_seq_contains_after_push;

    reveal_strlit("open_data");
    reveal_strlit("open_example");
    reveal_strlit("open_project");
    reveal_strlit("save_project");
    reveal_strlit("save_screenshot");
    reveal_strlit("toggle_theme");
    reveal_strlit("settings");
    reveal_strlit("about");
    reveal_strlit("layer_info");
    reveal_strlit("query");
    reveal_strlit("export_layer");
    reveal_strlit("reproject");
    reveal_strlit("buffer");
    reveal_strlit("overlay");
    reveal_strlit("topology");
    reveal_strlit("sjoin");
    reveal_strlit("zonal");
    reveal_strlit("measure");
    reveal_strlit("export_map");
    reveal_strlit("estate_map");
    reveal_strlit("zoom_fit");
    reveal_strlit("reset_view");
    reveal_strlit("new_frame_2d");
    reveal_strlit("new_frame_3d");
    reveal_strlit("panel_catalog");
    reveal_strlit("panel_layers");
    reveal_strlit("panel_toolbox");
    reveal_strlit("panel_attrtable");
    reveal_strlit("panel_console");
    reveal_strlit("panel_aichat");
    reveal_strlit("map_theme");
    reveal_strlit("skill_hotload");
    reveal_strlit("skill_list");
    reveal_strlit("skill_run");
    reveal_strlit("help");
    reveal_strlit("start_edit");
    reveal_strlit("save_edit");
    reveal_strlit("discard_edit");
    reveal_strlit("edit_select");
    reveal_strlit("edit_vertex");
    reveal_strlit("edit_move");
    reveal_strlit("edit_add_point");
    reveal_strlit("edit_add_line");
    reveal_strlit("edit_add_polygon");
    reveal_strlit("edit_add_hole");
    reveal_strlit("edit_split");
    reveal_strlit("edit_snap");
    reveal_strlit("edit_topo");
    reveal_strlit("edit_delete");
    reveal_strlit("undo");
    reveal_strlit("redo");
    // Ids of equal length differ at the position compared here; the others
    // differ in length.
    assert("open_data"@[0] != "reproject"@[0]);
    assert("open_data"@[0] != "map_theme"@[0]);
    assert("open_data"@[0] != "skill_run"@[0]);
    assert("open_data"@[0] != "save_edit"@[0]);
    assert("open_data"@[0] != "edit_move"@[0]);
    assert("open_data"@[0] != "edit_snap"@[0]);
    assert("open_data"@[0] != "edit_topo"@[0]);
    assert("open_example"@[5] != "open_project"@[5]);
    assert("open_example"@[0] != "save_project"@[0]);
    assert("open_example"@[0] != "toggle_theme"@[0]);
    assert("open_example"@[0] != "export_layer"@[0]);
    assert("open_example"@[0] != "new_frame_2d"@[0]);
    assert("open_example"@[0] != "new_frame_3d"@[0]);
    assert("open_example"@[0] != "panel_layers"@[0]);
    assert("open_example"@[0] != "panel_aichat"@[0]);
    assert("open_example"@[0] != "discard_edit"@[0]);
    assert("open_project"@[0] != "save_project"@[0]);
    assert("open_project"@[0] != "toggle_theme"@[0]);
    assert("open_project"@[0] != "export_layer"@[0]);
    assert("open_project"@[0] != "new_frame_2d"@[0]);
    assert("open_project"@[0] != "new_frame_3d"@[0]);
    assert("open_project"@[0] != "panel_layers"@[0]);
    assert("open_project"@[0] != "panel_aichat"@[0]);
    assert("open_project"@[0] != "discard_edit"@[0]);
    assert("save_project"@[0] != "toggle_theme"@[0]);
    assert("save_project"@[0] != "export_layer"@[0]);
    assert("save_project"@[0] != "new_frame_2d"@[0]);
    assert("save_project"@[0] != "new_frame_3d"@[0]);
    assert("save_project"@[0] != "panel_layers"@[0]);
    assert("save_project"@[0] != "panel_aichat"@[0]);
    assert("save_project"@[0] != "discard_edit"@[0]);
    assert("save_screenshot"@[0] != "panel_attrtable"@[0]);
    assert("toggle_theme"@[0] != "export_layer"@[0]);
    assert("toggle_theme"@[0] != "new_frame_2d"@[0]);
    assert("toggle_theme"@[0] != "new_frame_3d"@[0]);
    assert("toggle_theme"@[0] != "panel_layers"@[0]);
    assert("toggle_theme"@[0] != "panel_aichat"@[0]);
    assert("toggle_theme"@[0] != "discard_edit"@[0]);
    assert("settings"@[0] != "topology"@[0]);
    assert("settings"@[0] != "zoom_fit"@[0]);
    assert("about"@[0] != "query"@[0]);
    assert("about"@[0] != "sjoin"@[0]);
    assert("about"@[0] != "zonal"@[0]);
    assert("layer_info"@[0] != "export_map"@[0]);
    assert("layer_info"@[0] != "estate_map"@[0]);
    assert("layer_info"@[0] != "reset_view"@[0]);
    assert("layer_info"@[0] != "skill_list"@[0]);
    assert("layer_info"@[0] != "start_edit"@[0]);
    assert("layer_info"@[0] != "edit_split"@[0]);
    assert("query"@[0] != "sjoin"@[0]);
    assert("query"@[0] != "zonal"@[0]);
    assert("export_layer"@[0] != "new_frame_2d"@[0]);
    assert("export_layer"@[0] != "new_frame_3d"@[0]);
    assert("export_layer"@[0] != "panel_layers"@[0]);
    assert("export_layer"@[0] != "panel_aichat"@[0]);
    assert("export_layer"@[0] != "discard_edit"@[0]);
    assert("reproject"@[0] != "map_theme"@[0]);
    assert("reproject"@[0] != "skill_run"@[0]);
    assert("reproject"@[0] != "save_edit"@[0]);
    assert("reproject"@[0] != "edit_move"@[0]);
    assert("reproject"@[0] != "edit_snap"@[0]);
    assert("reproject"@[0] != "edit_topo"@[0]);
    assert("overlay"@[0] != "measure"@[0]);
    assert("topology"@[0] != "zoom_fit"@[0]);
    assert("sjoin"@[0] != "zonal"@[0]);
    assert("export_map"@[1] != "estate_map"@[1]);
    assert("export_map"@[0] != "reset_view"@[0]);
    assert("export_map"@[0] != "skill_list"@[0]);
    assert("export_map"@[0] != "start_edit"@[0]);
    assert("export_map"@[1] != "edit_split"@[1]);
    assert("estate_map"@[0] != "reset_view"@[0]);
    assert("estate_map"@[0] != "skill_list"@[0]);
    assert("estate_map"@[0] != "start_edit"@[0]);
    assert("estate_map"@[1] != "edit_split"@[1]);
    assert("reset_view"@[0] != "skill_list"@[0]);
    assert("reset_view"@[0] != "start_edit"@[0]);
    assert("reset_view"@[0] != "edit_split"@[0]);
    assert("new_frame_2d"@[10] != "new_frame_3d"@[10]);
    assert("new_frame_2d"@[0] != "panel_layers"@[0]);
    assert("new_frame_2d"@[0] != "panel_aichat"@[0]);
    assert("new_frame_2d"@[0] != "discard_edit"@[0]);
    assert("new_frame_3d"@[0] != "panel_layers"@[0]);
    assert("new_frame_3d"@[0] != "panel_aichat"@[0]);
    assert("new_frame_3d"@[0] != "discard_edit"@[0]);
    assert("panel_catalog"@[6] != "panel_toolbox"@[6]);
    assert("panel_catalog"@[7] != "panel_console"@[7]);
    assert("panel_catalog"@[0] != "skill_hotload"@[0]);
    assert("panel_catalog"@[0] != "edit_add_line"@[0]);
    assert("panel_catalog"@[0] != "edit_add_hole"@[0]);
    assert("panel_layers"@[6] != "panel_aichat"@[6]);
    assert("panel_layers"@[0] != "discard_edit"@[0]);
    assert("panel_toolbox"@[6] != "panel_console"@[6]);
    assert("panel_toolbox"@[0] != "skill_hotload"@[0]);
    assert("panel_toolbox"@[0] != "edit_add_line"@[0]);
    assert("panel_toolbox"@[0] != "edit_add_hole"@[0]);
    assert("panel_console"@[0] != "skill_hotload"@[0]);
    assert("panel_console"@[0] != "edit_add_line"@[0]);
    assert("panel_console"@[0] != "edit_add_hole"@[0]);
    assert("panel_aichat"@[0] != "discard_edit"@[0]);
    assert("map_theme"@[0] != "skill_run"@[0]);
    assert("map_theme"@[0] != "save_edit"@[0]);
    assert("map_theme"@[0] != "edit_move"@[0]);
    assert("map_theme"@[0] != "edit_snap"@[0]);
    assert("map_theme"@[0] != "edit_topo"@[0]);
    assert("skill_hotload"@[0] != "edit_add_line"@[0]);
    assert("skill_hotload"@[0] != "edit_add_hole"@[0]);
    assert("skill_list"@[1] != "start_edit"@[1]);
    assert("skill_list"@[0] != "edit_split"@[0]);
    assert("skill_run"@[1] != "save_edit"@[1]);
    assert("skill_run"@[0] != "edit_move"@[0]);
    assert("skill_run"@[0] != "edit_snap"@[0]);
    assert("skill_run"@[0] != "edit_topo"@[0]);
    assert("help"@[0] != "undo"@[0]);
    assert("help"@[0] != "redo"@[0]);
    assert("start_edit"@[0] != "edit_split"@[0]);
    assert("save_edit"@[0] != "edit_move"@[0]);
    assert("save_edit"@[0] != "edit_snap"@[0]);
    assert("save_edit"@[0] != "edit_topo"@[0]);
    assert("edit_select"@[5] != "edit_vertex"@[5]);
    assert("edit_select"@[5] != "edit_delete"@[5]);
    assert("edit_vertex"@[5] != "edit_delete"@[5]);
    assert("edit_move"@[5] != "edit_snap"@[5]);
    assert("edit_move"@[5] != "edit_topo"@[5]);
    assert("edit_add_line"@[9] != "edit_add_hole"@[9]);
    assert("edit_snap"@[5] != "edit_topo"@[5]);
    assert("undo"@[0] != "redo"@[0]);
    // The registry's ids, added one by one, each absent from those before it.
    assert("open_data"@.len() == 9);
    assert("open_example"@.len() == 12);
    assert("open_project"@.len() == 12);
    assert("save_project"@.len() == 12);
    assert("save_screenshot"@.len() == 15);
    assert("toggle_theme"@.len() == 12);
    assert("settings"@.len() == 8);
    assert("about"@.len() == 5);
    assert("layer_info"@.len() == 10);
    assert("query"@.len() == 5);
    assert("export_layer"@.len() == 12);
    assert("reproject"@.len() == 9);
    assert("buffer"@.len() == 6);
    assert("overlay"@.len() == 7);
    assert("topology"@.len() == 8);
    assert("sjoin"@.len() == 5);
    assert("zonal"@.len() == 5);
    assert("measure"@.len() == 7);
    assert("export_map"@.len() == 10);
    assert("estate_map"@.len() == 10);
    assert("zoom_fit"@.len() == 8);
    assert("reset_view"@.len() == 10);
    assert("new_frame_2d"@.len() == 12);
    assert("new_frame_3d"@.len() == 12);
    assert("panel_catalog"@.len() == 13);
    assert("panel_layers"@.len() == 12);
    assert("panel_toolbox"@.len() == 13);
    assert("panel_attrtable"@.len() == 15);
    assert("panel_console"@.len() == 13);
    assert("panel_aichat"@.len() == 12);
    assert("map_theme"@.len() == 9);
    assert("skill_hotload"@.len() == 13);
    assert("skill_list"@.len() == 10);
    assert("skill_run"@.len() == 9);
    assert("help"@.len() == 4);
    assert("start_edit"@.len() == 10);
    assert("save_edit"@.len() == 9);
    assert("discard_edit"@.len() == 12);
    assert("edit_select"@.len() == 11);
    assert("edit_vertex"@.len() == 11);
    assert("edit_move"@.len() == 9);
    assert("edit_add_point"@.len() == 14);
    assert("edit_add_line"@.len() == 13);
    assert("edit_add_polygon"@.len() == 16);
    assert("edit_add_hole"@.len() == 13);
    assert("edit_split"@.len() == 10);
    assert("edit_snap"@.len() == 9);
    assert("edit_topo"@.len() == 9);
    assert("edit_delete"@.len() == 11);
    assert("undo"@.len() == 4);
    assert("redo"@.len() == 4);
    let s0 = Seq::<Seq<char>>::empty();
    assert(s0.no_duplicates());
    lemma_push_no_duplicates(s0, "open_data"@);
    let s1 = s0.push("open_data"@);
    lemma_push_no_duplicates(s1, "open_example"@);
    let s2 = s1.push("open_example"@);
    lemma_push_no_duplicates(s2, "open_project"@);
    let s3 = s2.push("open_project"@);
    lemma_push_no_duplicates(s3, "save_project"@);
    let s4 = s3.push("save_project"@);
    lemma_push_no_duplicates(s4, "save_screenshot"@);
    let s5 = s4.push("save_screenshot"@);
    lemma_push_no_duplicates(s5, "toggle_theme"@);
    let s6 = s5.push("toggle_theme"@);
    lemma_push_no_duplicates(s6, "settings"@);
    let s7 = s6.push("settings"@);
    lemma_push_no_duplicates(s7, "about"@);
    let s8 = s7.push("about"@);
    lemma_push_no_duplicates(s8, "layer_info"@);
    let s9 = s8.push("layer_info"@);
    lemma_push_no_duplicates(s9, "query"@);
    let s10 = s9.push("query"@);
    lemma_push_no_duplicates(s10, "export_layer"@);
    let s11 = s10.push("export_layer"@);
    lemma_push_no_duplicates(s11, "reproject"@);
    let s12 = s11.push("reproject"@);
    lemma_push_no_duplicates(s12, "buffer"@);
    let s13 = s12.push("buffer"@);
    lemma_push_no_duplicates(s13, "overlay"@);
    let s14 = s13.push("overlay"@);
    lemma_push_no_duplicates(s14, "topology"@);
    let s15 = s14.push("topology"@);
    lemma_push_no_duplicates(s15, "sjoin"@);
    let s16 = s15.push("sjoin"@);
    lemma_push_no_duplicates(s16, "zonal"@);
    let s17 = s16.push("zonal"@);
    lemma_push_no_duplicates(s17, "measure"@);
    let s18 = s17.push("measure"@);
    lemma_push_no_duplicates(s18, "export_map"@);
    let s19 = s18.push("export_map"@);
    lemma_push_no_duplicates(s19, "estate_map"@);
    let s20 = s19.push("estate_map"@);
    lemma_push_no_duplicates(s20, "zoom_fit"@);
    let s21 = s20.push("zoom_fit"@);
    lemma_push_no_duplicates(s21, "reset_view"@);
    let s22 = s21.push("reset_view"@);
    lemma_push_no_duplicates(s22, "new_frame_2d"@);
    let s23 = s22.push("new_frame_2d"@);
    lemma_push_no_duplicates(s23, "new_frame_3d"@);
    let s24 = s23.push("new_frame_3d"@);
    lemma_push_no_duplicates(s24, "panel_catalog"@);
    let s25 = s24.push("panel_catalog"@);
    lemma_push_no_duplicates(s25, "panel_layers"@);
    let s26 = s25.push("panel_layers"@);
    lemma_push_no_duplicates(s26, "panel_toolbox"@);
    let s27 = s26.push("panel_toolbox"@);
    lemma_push_no_duplicates(s27, "panel_attrtable"@);
    let s28 = s27.push("panel_attrtable"@);
    lemma_push_no_duplicates(s28, "panel_console"@);
    let s29 = s28.push("panel_console"@);
    lemma_push_no_duplicates(s29, "panel_aichat"@);
    let s30 = s29.push("panel_aichat"@);
    lemma_push_no_duplicates(s30, "map_theme"@);
    let s31 = s30.push("map_theme"@);
    lemma_push_no_duplicates(s31, "skill_hotload"@);
    let s32 = s31.push("skill_hotload"@);
    lemma_push_no_duplicates(s32, "skill_list"@);
    let s33 = s32.push("skill_list"@);
    lemma_push_no_duplicates(s33, "skill_run"@);
    let s34 = s33.push("skill_run"@);
    lemma_push_no_duplicates(s34, "help"@);
    let s35 = s34.push("help"@);
    lemma_push_no_duplicates(s35, "start_edit"@);
    let s36 = s35.push("start_edit"@);
    lemma_push_no_duplicates(s36, "save_edit"@);
    let s37 = s36.push("save_edit"@);
    lemma_push_no_duplicates(s37, "discard_edit"@);
    let s38 = s37.push("discard_edit"@);
    lemma_push_no_duplicates(s38, "edit_select"@);
    let s39 = s38.push("edit_select"@);
    lemma_push_no_duplicates(s39, "edit_vertex"@);
    let s40 = s39.push("edit_vertex"@);
    lemma_push_no_duplicates(s40, "edit_move"@);
    let s41 = s40.push("edit_move"@);
    lemma_push_no_duplicates(s41, "edit_add_point"@);
    let s42 = s41.push("edit_add_point"@);
    lemma_push_no_duplicates(s42, "edit_add_line"@);
    let s43 = s42.push("edit_add_line"@);
    lemma_push_no_duplicates(s43, "edit_add_polygon"@);
    let s44 = s43.push("edit_add_polygon"@);
    lemma_push_no_duplicates(s44, "edit_add_hole"@);
    let s45 = s44.push("edit_add_hole"@);
    lemma_push_no_duplicates(s45, "edit_split"@);
    let s46 = s45.push("edit_split"@);
    lemma_push_no_duplicates(s46, "edit_snap"@);
    let s47 = s46.push("edit_snap"@);
    lemma_push_no_duplicates(s47, "edit_topo"@);
    let s48 = s47.push("edit_topo"@);
    lemma_push_no_duplicates(s48, "edit_delete"@);
    let s49 = s48.push("edit_delete"@);
    lemma_push_no_duplicates(s49, "undo"@);
    let s50 = s49.push("undo"@);
    lemma_push_no_duplicates(s50, "redo"@);
    let s51 = s50.push("redo"@);
    assert(s51 =~= command_ids());
    assert forall|i: int, j: int| 0 <= i < j < command_table().len() implies (
        #[trigger] command_table()[i]).id@ != (#[trigger] command_table()[j]).id@ by {
        assert(command_ids()[i] == command_table()[i].id@);
        assert(command_ids()[j] == command_table()[j].id@);
    }
}


/// Every text of `s` is non-empty.
pub open spec fn all_nonempty(s: Seq<Seq<char>>) -> bool {
    forall|i: int| 0 <= i < s.len() ==> (#[trigger] s[i]).len() > 0
}

/// Every command has a title and a description.
pub proof fn law_commands_have_texts()
    ensures
        forall|i: int|
            0 <= i < command_table().len() ==> (#[trigger] command_table()[i]).title@.len() > 0
                && command_table()[i].desc_body@.len() > 0,
{

    reveal_strlit("打开数据…");
    reveal_strlit("打开示例");
    reveal_strlit("打开工程…");
    reveal_strlit("保存工程");
    reveal_strlit("保存截图");
    reveal_strlit("切换主题");
    reveal_strlit("设置…");
    reveal_strlit("关于堪舆");
    reveal_strlit("图层概要");
    reveal_strlit("属性查询…");
    reveal_strlit("导出图层…");
    reveal_strlit("投影变换…");
    reveal_strlit("缓冲区…");
    reveal_strlit("叠加分析…");
    reveal_strlit("拓扑检查");
    reveal_strlit("空间连接…");
    reveal_strlit("分区统计…");
    reveal_strlit("测地度量…");
    reveal_strlit("导出地图…");
    reveal_strlit("不动产制图…");
    reveal_strlit("缩放到图层");
    reveal_strlit("复位视图");
    reveal_strlit("新建二维地图框");
    reveal_strlit("新建三维场景");
    reveal_strlit("目录");
    reveal_strlit("图层");
    reveal_strlit("工具箱");
    reveal_strlit("属性表");
    reveal_strlit("终端");
    reveal_strlit("AI 对话");
    reveal_strlit("地图色彩");
    reveal_strlit("热加载…");
    reveal_strlit("技能清单");
    reveal_strlit("运行技能…");
    reveal_strlit("命令速查");
    reveal_strlit("开始编辑");
    reveal_strlit("保存编辑");
    reveal_strlit("放弃编辑");
    reveal_strlit("选择");
    reveal_strlit("顶点编辑");
    reveal_strlit("移动要素");
    reveal_strlit("添加点");
    reveal_strlit("添加线");
    reveal_strlit("添加面");
    reveal_strlit("添加洞");
    reveal_strlit("分割要素");
    reveal_strlit("捕捉");
    reveal_strlit("拓扑编辑");
    reveal_strlit("删除要素");
    reveal_strlit("撤销");
    reveal_strlit("重做");
    reveal_strlit("支持 shp/geojson/fgb/parquet/dxf/dwg/kml/kmz/csv/xlsx/kdb；也可直接拖文件入窗");
    reveal_strlit("examples/buildings.geojson（3 建筑点 + 1 道路线）");
    reveal_strlit("恢复图层清单、可见性、视口与地图色彩设置");
    reveal_strlit("把当前图层、可见性、视口、地图色彩保存为 .kyu 工程文件（快捷键 Ctrl+S）");
    reveal_strlit("把当前整个窗口保存为 PNG（含 Ribbon 与面板）");
    reveal_strlit("晨山 / 夜观星；只改变界面，不改变地图色彩（见「视图 → 地图色彩」）");
    reveal_strlit("工程坐标系选择与渲染设置（独立设置对话框，不占功能区）");
    reveal_strlit("版本、架构、许可证");
    reveal_strlit("当前图层的要素数/几何类型/字段（输出到终端）");
    reveal_strlit("如 height > 50；结果存为新图层");
    reveal_strlit("geojson/csv/fgb/parquet/dxf/kml/kmz/shp/kdb 全格式互转");
    reveal_strlit("EPSG 全库（如 4326 → 3857），结果存为新图层");
    reveal_strlit("按距离生成缓冲区（结果存为新图层；米制请先投影）");
    reveal_strlit("union/intersection/difference/xor（两个面图层）");
    reveal_strlit("no_overlap 规则（结果输出到终端）");
    reveal_strlit("按空间谓词合并两图层属性（左连接 + explode）");
    reveal_strlit("面要素分区统计数值字段（count/sum/mean/min/max）");
    reveal_strlit("Karney 2013 测地线长度/面积（米/平方米）");
    reveal_strlit("当前视图导出为 PNG / SVG（尺寸/样式在「设置 → 渲染」，色彩由「视图 → 地图色彩」决定）");
    reveal_strlit("宗地图/房产图/宗海图/用岛图等九图种出图（比例尺与 DPI 可设，输出路径确定后选择）");
    reveal_strlit("全部可见图层的数据范围");
    reveal_strlit("恢复初始相机");
    reveal_strlit("创建二维地图框并激活（绑定自有图层集；目录「地图框」可管理）");
    reveal_strlit("创建三维场景框并激活（实验性软件 3D；二维/三维分开建立）");
    reveal_strlit("显示/关闭目录面板（页签可拖动改停靠、拖到画布变浮动窗）");
    reveal_strlit("显示/关闭图层面板（Contents 目录树）");
    reveal_strlit("显示/关闭工具箱面板（QGIS Processing 式算法清单）");
    reveal_strlit("显示/关闭属性表面板（字段表格 + 字段计算器）");
    reveal_strlit("显示/关闭终端面板（命令直达内核）");
    reveal_strlit("显示/关闭 AI 对话面板（自然语言驱动分析）");
    reveal_strlit("固定晨山 → 固定夜观星 → 跟随界面（默认固定晨山，保证制图输出正确）");
    reveal_strlit("加载并校验 .wasm 技能（wasmtime 沙箱 + fuel 配额）");
    reveal_strlit("已注册技能（输出到终端）");
    reveal_strlit("在选定图层上执行技能，结果存为新图层");
    reveal_strlit("终端命令速查（输出到终端）");
    reveal_strlit("以当前选中图层为目标开启编辑（同一时刻仅一个图层可编辑）");
    reveal_strlit("结束编辑会话（编辑即时生效；落盘请用「导出图层」）");
    reveal_strlit("逐条撤销到会话起点并结束会话");
    reveal_strlit("点击画布要素选中（空白处取消）");
    reveal_strlit("拖拽顶点句柄移动顶点（MoveVertex 命令入历史）");
    reveal_strlit("拖动要素整体平移");
    reveal_strlit("点击画布插入点要素（InsertFeature 命令入历史）");
    reveal_strlit("单击加顶点，双击/Enter 完成（≥2 点），Backspace 撤点，Esc 放弃");
    reveal_strlit("单击加顶点，双击/Enter 完成并自动闭合（≥3 点），Backspace 撤点，Esc 放弃");
    reveal_strlit("面图层：在目标面内绘制闭合环（完全在面内才生效），MultiPolygon 按子面定位");
    reveal_strlit("绘制切割线（双击完成）切分面要素；单击线要素在点击处打断为两段（一次撤销）");
    reveal_strlit("绘制/顶点编辑时吸附 10px 内既有顶点（默认开）");
    reveal_strlit("开时顶点拖拽联动全部共享该顶点的要素（当前图层范围，一次撤销；默认关）");
    reveal_strlit("点选要素后按 Delete 键或再次点击删除");
    reveal_strlit("撤销一步编辑（编辑会话历史；快捷键 Ctrl+Z）");
    reveal_strlit("重做一步编辑（快捷键 Ctrl+Y / Ctrl+Shift+Z）");
    let t = command_table().map_values(|c: CommandDef| c.title@);
    let b = command_table().map_values(|c: CommandDef| c.desc_body@);
    assert(t =~= seq!["打开数据…"@, "打开示例"@, "打开工程…"@, "保存工程"@, "保存截图"@, "切换主题"@, "设置…"@, "关于堪舆"@, "图层概要"@, "属性查询…"@, "导出图层…"@, "投影变换…"@, "缓冲区…"@, "叠加分析…"@, "拓扑检查"@, "空间连接…"@, "分区统计…"@, "测地度量…"@, "导出地图…"@, "不动产制图…"@, "缩放到图层"@, "复位视图"@, "新建二维地图框"@, "新建三维场景"@, "目录"@, "图层"@, "工具箱"@, "属性表"@, "终端"@, "AI 对话"@, "地图色彩"@, "热加载…"@, "技能清单"@, "运行技能…"@, "命令速查"@, "开始编辑"@, "保存编辑"@, "放弃编辑"@, "选择"@, "顶点编辑"@, "移动要素"@, "添加点"@, "添加线"@, "添加面"@, "添加洞"@, "分割要素"@, "捕捉"@, "拓扑编辑"@, "删除要素"@, "撤销"@, "重做"@]);
    assert(b =~= seq!["支持 shp/geojson/fgb/parquet/dxf/dwg/kml/kmz/csv/xlsx/kdb；也可直接拖文件入窗"@, "examples/buildings.geojson（3 建筑点 + 1 道路线）"@, "恢复图层清单、可见性、视口与地图色彩设置"@, "把当前图层、可见性、视口、地图色彩保存为 .kyu 工程文件（快捷键 Ctrl+S）"@, "把当前整个窗口保存为 PNG（含 Ribbon 与面板）"@, "晨山 / 夜观星；只改变界面，不改变地图色彩（见「视图 → 地图色彩」）"@, "工程坐标系选择与渲染设置（独立设置对话框，不占功能区）"@, "版本、架构、许可证"@, "当前图层的要素数/几何类型/字段（输出到终端）"@, "如 height > 50；结果存为新图层"@, "geojson/csv/fgb/parquet/dxf/kml/kmz/shp/kdb 全格式互转"@, "EPSG 全库（如 4326 → 3857），结果存为新图层"@, "按距离生成缓冲区（结果存为新图层；米制请先投影）"@, "union/intersection/difference/xor（两个面图层）"@, "no_overlap 规则（结果输出到终端）"@, "按空间谓词合并两图层属性（左连接 + explode）"@, "面要素分区统计数值字段（count/sum/mean/min/max）"@, "Karney 2013 测地线长度/面积（米/平方米）"@, "当前视图导出为 PNG / SVG（尺寸/样式在「设置 → 渲染」，色彩由「视图 → 地图色彩」决定）"@, "宗地图/房产图/宗海图/用岛图等九图种出图（比例尺与 DPI 可设，输出路径确定后选择）"@, "全部可见图层的数据范围"@, "恢复初始相机"@, "创建二维地图框并激活（绑定自有图层集；目录「地图框」可管理）"@, "创建三维场景框并激活（实验性软件 3D；二维/三维分开建立）"@, "显示/关闭目录面板（页签可拖动改停靠、拖到画布变浮动窗）"@, "显示/关闭图层面板（Contents 目录树）"@, "显示/关闭工具箱面板（QGIS Processing 式算法清单）"@, "显示/关闭属性表面板（字段表格 + 字段计算器）"@, "显示/关闭终端面板（命令直达内核）"@, "显示/关闭 AI 对话面板（自然语言驱动分析）"@, "固定晨山 → 固定夜观星 → 跟随界面（默认固定晨山，保证制图输出正确）"@, "加载并校验 .wasm 技能（wasmtime 沙箱 + fuel 配额）"@, "已注册技能（输出到终端）"@, "在选定图层上执行技能，结果存为新图层"@, "终端命令速查（输出到终端）"@, "以当前选中图层为目标开启编辑（同一时刻仅一个图层可编辑）"@, "结束编辑会话（编辑即时生效；落盘请用「导出图层」）"@, "逐条撤销到会话起点并结束会话"@, "点击画布要素选中（空白处取消）"@, "拖拽顶点句柄移动顶点（MoveVertex 命令入历史）"@, "拖动要素整体平移"@, "点击画布插入点要素（InsertFeature 命令入历史）"@, "单击加顶点，双击/Enter 完成（≥2 点），Backspace 撤点，Esc 放弃"@, "单击加顶点，双击/Enter 完成并自动闭合（≥3 点），Backspace 撤点，Esc 放弃"@, "面图层：在目标面内绘制闭合环（完全在面内才生效），MultiPolygon 按子面定位"@, "绘制切割线（双击完成）切分面要素；单击线要素在点击处打断为两段（一次撤销）"@, "绘制/顶点编辑时吸附 10px 内既有顶点（默认开）"@, "开时顶点拖拽联动全部共享该顶点的要素（当前图层范围，一次撤销；默认关）"@, "点选要素后按 Delete 键或再次点击删除"@, "撤销一步编辑（编辑会话历史；快捷键 Ctrl+Z）"@, "重做一步编辑（快捷键 Ctrl+Y / Ctrl+Shift+Z）"@]);
    assert forall|i: int| 0 <= i < command_table().len() implies (
        #[trigger] command_table()[i]).title@.len() > 0 && command_table()[i].desc_body@.len()
        > 0 by {
        assert(t[i] == command_table()[i].title@);
        assert(b[i] == command_table()[i].desc_body@);
    }
}

/// What each enable condition means: always; some layer loaded; a layer
/// selected; a layer selected and no session yet; a session running;
/// something to undo; something to redo.
pub proof fn law_condition_meanings(s: AppSnapshot)
    ensures
        condition_holds(Condition::Always, s),
        condition_holds(Condition::HasLayers, s) == (s.layer_count > 0),
        condition_holds(Condition::HasSelection, s) == s.has_selection,
        condition_holds(Condition::CanStartEdit, s) == (s.has_selection && !s.editing),
        condition_holds(Condition::Editing, s) == s.editing,
        condition_holds(Condition::CanUndo, s) == s.can_undo,
        condition_holds(Condition::CanRedo, s) == s.can_redo,
{
}

} // verus!
