//! The contents panel's data and decisions: the actions its rows raise, the
//! layer and skill rows it is given, the legend colour role of a layer, and
//! the detail lines of an expanded layer.

use vstd::prelude::*;

use crate::commands::{command_table, find, first_with_id, registered};
use crate::text::{
    contains, contains_seq, dec_seq, join, join_seq, pad_right_seq, push_decimal, push_padded,
    str_eq, string_views,
};

verus! {

/// Where a layer moves within its parent list.
#[derive(Clone, Copy, PartialEq, Eq, Debug, Structural)]
pub enum MoveDir {
    /// One up.
    Up,
    /// One down.
    Down,
    /// To the top.
    Top,
    /// To the bottom.
    Bottom,
}

/// What a contents-panel row asks the application to do. Layers and groups
/// are named by id or group path (indices shift as the list changes).
#[derive(Debug, Clone)]
pub enum PanelAction {
    /// Select a layer.
    SelectLayer(String),
    /// Set a layer's visibility.
    SetLayerVisible(String, bool),
    /// Flip a layer's visibility.
    ToggleLayerVisible(String),
    /// Zoom to a layer.
    ZoomToLayer(String),
    /// Show a layer's summary.
    ShowSummary(String),
    /// Open the attribute table on a layer.
    OpenAttrTable(String),
    /// Show a layer's properties.
    LayerProperties(String),
    /// Move a layer within its parent list.
    MoveLayer(String, MoveDir),
    /// Rename a layer.
    RenameLayer(String),
    /// Move a layer into a group (`None`: to the root).
    MoveLayerToGroup(String, Option<String>),
    /// Make a new group and move the layer into it.
    NewGroupForLayer(String),
    /// Export a layer.
    ExportLayer(String),
    /// Remove a layer.
    RemoveLayer(String),
    /// Expand or collapse a layer's detail rows.
    ToggleExpand(String),
    /// Select a group.
    SelectGroup(String),
    /// Expand or collapse a group.
    ToggleGroupExpand(String),
    /// Expand or collapse a group's subtree.
    SetGroupExpanded(String, bool),
    /// Show or hide a whole group.
    SetGroupVisible(String, bool),
    /// Zoom to a group.
    ZoomToGroup(String),
    /// Rename a group.
    RenameGroup(String),
    /// Make a group (`None`: at the root; else inside the given group).
    NewGroup(Option<String>),
    /// Dissolve a group (its members move up a level).
    Ungroup(String),
    /// Remove a group with its layers.
    RemoveGroup(String),
    /// Expand or collapse everything.
    SetAllExpanded(bool),
    /// Show or hide everything.
    SetAllVisible(bool),
}

/// A layer row as the application describes it.
#[derive(Clone)]
pub struct LayerView {
    /// Stable id.
    pub id: String,
    /// Display name.
    pub file_name: String,
    /// Format.
    pub format: String,
    /// Feature count.
    pub feature_count: usize,
    /// Geometry types present.
    pub geometry_types: Vec<String>,
    /// Field names.
    pub fields: Vec<String>,
    /// Own visibility (ancestors may still hide it).
    pub visible: bool,
    /// Detail rows shown.
    pub expanded: bool,
    /// Symbol classes: colour and label.
    pub sym_classes: Vec<([u8; 3], String)>,
}

/// The own visibility of layer `id`: that of the last row with that id (a
/// later row shadows an earlier one), and hidden when there is none.
pub open spec fn own_visible_of(layers: Seq<LayerView>, id: Seq<char>) -> bool
    decreases layers.len(),
{
    if layers.len() == 0 {
        false
    } else if layers.last().id@ == id {
        layers.last().visible
    } else {
        own_visible_of(layers.drop_last(), id)
    }
}

/// Looks up the own visibility of layer `id` among the layer rows.
pub fn own_visible(layers: &Vec<LayerView>, id: &str) -> (r: bool)
    ensures
        r == own_visible_of(layers@, id@),
{
    let mut i: usize = layers.len();
    assert(layers@.take(i as int) =~= layers@);
    while i > 0
        invariant
            i <= layers@.len(),
            own_visible_of(layers@, id@) == own_visible_of(layers@.take(i as int), id@),
        decreases i,
    {
        let ghost t = layers@.take(i as int);
        assert(t.drop_last() =~= layers@.take(i - 1));
        if str_eq(layers[i - 1].id.as_str(), id) {
            return layers[i - 1].visible;
        }
        i = i - 1;
    }
    false
}

/// A skill row.
#[derive(Clone)]
pub struct SkillView {
    /// Skill id.
    pub id: String,
    /// Version.
    pub version: String,
    /// Capabilities.
    pub capabilities: Vec<String>,
}

/// The palette role of a layer's legend swatch.
#[derive(Clone, Copy, PartialEq, Eq, Debug, Structural)]
pub enum GeomRole {
    /// Polygons: the accent colour.
    Accent,
    /// Lines: the info colour.
    Info,
    /// Points and the rest: the tertiary accent.
    AccentTertiary,
}

/// Some geometry type name contains `k`.
pub open spec fn any_type_has(types: Seq<String>, k: Seq<char>) -> bool {
    exists|i: int| 0 <= i < types.len() && contains_seq(#[trigger] types[i]@, k)
}

/// Whether some entry of `types` contains `k`.
fn any_contains(types: &[String], k: &str) -> (r: bool)
    ensures
        r == any_type_has(types@, k@),
{
    let n = types.len();
    let mut i: usize = 0;
    while i < n
        invariant
            n == types@.len(),
            i <= n,
            forall|j: int| 0 <= j < i ==> !contains_seq(#[trigger] types@[j]@, k@),
        decreases n - i,
    {
        if contains(types[i].as_str(), k) {
            return true;
        }
        i = i + 1;
    }
    false
}

/// The swatch role: polygons win over lines, lines over everything else.
pub fn geom_role(types: &[String]) -> (r: GeomRole)
    ensures
        r == (if any_type_has(types@, "Polygon"@) {
            GeomRole::Accent
        } else if any_type_has(types@, "LineString"@) {
            GeomRole::Info
        } else {
            GeomRole::AccentTertiary
        }),
{
    if any_contains(types, "Polygon") {
        GeomRole::Accent
    } else if any_contains(types, "LineString") {
        GeomRole::Info
    } else {
        GeomRole::AccentTertiary
    }
}

/// The field list of an expanded layer: all names joined by ` · `, or the
/// first eight and a count of the rest.
pub open spec fn fields_summary_seq(fields: Seq<Seq<char>>) -> Seq<char> {
    if fields.len() > 8 {
        join_seq(fields.take(8), " · "@) + " …(+"@ + dec_seq((fields.len() - 8) as nat) + ")"@
    } else {
        join_seq(fields, " · "@)
    }
}

/// The field line of an expanded layer.
pub fn fields_line(fields: &Vec<String>) -> (r: String)
    ensures
        r@ == "字段: "@ + fields_summary_seq(string_views(fields@)),
{
    let n = fields.len();
    let mut out = String::from_str("字段: ");
    if n > 8 {
        let mut head: Vec<String> = Vec::new();
        let mut i: usize = 0;
        while i < 8
            invariant
                n == fields@.len(),
                n > 8,
                i <= 8,
                string_views(head@) == string_views(fields@).take(i as int),
            decreases 8 - i,
        {
            let ghost before = head@;
            head.push(fields[i].clone());
            assert(string_views(head@) =~= string_views(before).push(fields@[i as int]@));
            assert(string_views(fields@).take(i + 1) =~= string_views(fields@).take(i as int).push(
                fields@[i as int]@,
            ));
            i = i + 1;
        }
        let joined = join(&head, " · ");
        out.append(joined.as_str());
        out.append(" …(+");
        push_decimal(&mut out, (n - 8) as u64);
        out.append(")");
    } else {
        let joined = join(fields, " · ");
        out.append(joined.as_str());
    }
    out
}

/// The format line of an expanded layer.
pub fn format_line(format: &str, feature_count: usize) -> (r: String)
    ensures
        r@ == "格式: "@ + format@ + " · "@ + dec_seq(feature_count as nat) + " 要素"@,
{
    let mut out = String::from_str("格式: ");
    out.append(format);
    out.append(" · ");
    push_decimal(&mut out, feature_count as u64);
    out.append(" 要素");
    out
}

/// The title of a layer's export item: the registry's title for
/// `export_layer`, or a plain fallback.
pub fn export_layer_title() -> (r: &'static str)
    ensures
        registered("export_layer"@) ==> exists|i: int|
            first_with_id("export_layer"@, i) && r@ == command_table()[i].title@,
        !registered("export_layer"@) ==> r@ == "导出…"@,
{
    match find("export_layer") {
        Some(c) => c.title,
        None => "导出…",
    }
}

/// The line describing a layer: id, feature count, geometry types, fields.
pub open spec fn layer_info_text(
    id: Seq<char>,
    count: nat,
    types: Seq<Seq<char>>,
    fields: Seq<Seq<char>>,
) -> Seq<char> {
    "图层 "@ + id + ": "@ + dec_seq(count) + " 要素 | 几何 "@ + join_seq(types, ", "@) + " | 字段 ["@
        + join_seq(fields, ", "@) + "]"@
}

/// The summary line of a layer (written to the terminal).
pub fn layer_info_line(lv: &LayerView) -> (r: String)
    ensures
        r@ == layer_info_text(
            lv.id@,
            lv.feature_count as nat,
            string_views(lv.geometry_types@),
            string_views(lv.fields@),
        ),
{
    let mut out = String::from_str("图层 ");
    out.append(lv.id.as_str());
    out.append(": ");
    push_decimal(&mut out, lv.feature_count as u64);
    out.append(" 要素 | 几何 ");
    let types = join(&lv.geometry_types, ", ");
    out.append(types.as_str());
    out.append(" | 字段 [");
    let fields = join(&lv.fields, ", ");
    out.append(fields.as_str());
    out.append("]");
    out
}

/// The summary line of a layer with its format (shown from the contents
/// panel).
pub open spec fn layer_summary_text(lv: LayerView) -> Seq<char> {
    "图层 "@ + lv.id@ + ": "@ + dec_seq(lv.feature_count as nat) + " 要素 | 格式 "@ + lv.format@
        + " | 几何 "@ + join_seq(string_views(lv.geometry_types@), ", "@) + " | 字段 ["@
        + join_seq(string_views(lv.fields@), ", "@) + "]"@
}

/// The summary line of a layer with its format.
pub fn layer_summary_line(lv: &LayerView) -> (r: String)
    ensures
        r@ == layer_summary_text(*lv),
{
    let mut out = String::from_str("图层 ");
    out.append(lv.id.as_str());
    out.append(": ");
    push_decimal(&mut out, lv.feature_count as u64);
    out.append(" 要素 | 格式 ");
    out.append(lv.format.as_str());
    out.append(" | 几何 ");
    let types = join(&lv.geometry_types, ", ");
    out.append(types.as_str());
    out.append(" | 字段 [");
    let fields = join(&lv.fields, ", ");
    out.append(fields.as_str());
    out.append("]");
    out
}

/// One row of the skill list: id padded to 24, `v` and the version padded to
/// 8, and the capabilities in brackets.
pub open spec fn skill_row_text(s: SkillView) -> Seq<char> {
    pad_right_seq(s.id@, 24) + " v"@ + pad_right_seq(s.version@, 8) + " ["@ + join_seq(
        string_views(s.capabilities@),
        ", "@,
    ) + "]"@
}

/// The skill list written to the terminal: one row per skill, or a note
/// when there is none.
pub fn skill_list_lines(skills: &Vec<SkillView>) -> (r: Vec<String>)
    ensures
        skills@.len() == 0 ==> string_views(r@) == seq!["（无已注册技能）"@],
        skills@.len() > 0 ==> r@.len() == skills@.len() && forall|i: int|
            0 <= i < r@.len() ==> (#[trigger] r@[i])@ == skill_row_text(skills@[i]),
{
    let mut out: Vec<String> = Vec::new();
    let n = skills.len();
    if n == 0 {
        out.push(String::from_str("（无已注册技能）"));
        assert(string_views(out@) =~= seq!["（无已注册技能）"@]);
        return out;
    }
    let mut i: usize = 0;
    while i < n
        invariant
            n == skills@.len(),
            i <= n,
            out@.len() == i,
            forall|k: int| 0 <= k < i ==> (#[trigger] out@[k])@ == skill_row_text(skills@[k]),
        decreases n - i,
    {
        let s = &skills[i];
        let mut row = String::new();
        push_padded(&mut row, s.id.as_str(), 24);
        row.append(" v");
        push_padded(&mut row, s.version.as_str(), 8);
        row.append(" [");
        let caps = join(&s.capabilities, ", ");
        row.append(caps.as_str());
        row.append("]");
        assert(row@ =~= skill_row_text(skills@[i as int]));
        out.push(row);
        i = i + 1;
    }
    out
}

} // verus!
