//! Editing session logic: tools, sketch kinds, the line/polygon sketch state and
//! the tool/layer geometry compatibility rule.

use vstd::prelude::*;

use crate::text::{copy_strings, join, join_seq, push_decimal, dec_seq, str_eq, string_views};

verus! {

/// Editing tool.
#[derive(Clone, Copy, PartialEq, Eq, Debug, Structural)]
pub enum EditTool {
    /// Select features by clicking.
    Select,
    /// Drag vertex handles.
    Vertex,
    /// Move whole features.
    Move,
    /// Insert points.
    AddPoint,
    /// Draw lines (click adds a vertex, double-click/Enter finishes).
    AddLine,
    /// Draw polygons (finishing closes the ring).
    AddPolygon,
    /// Draw a hole inside a polygon.
    AddHole,
    /// Split features along a drawn cut line, or break a clicked line.
    Split,
    /// Delete features.
    Delete,
}

/// Display name of each tool.
pub open spec fn edit_tool_label(t: EditTool) -> Seq<char> {
    match t {
        EditTool::Select => "选择"@,
        EditTool::Vertex => "顶点编辑"@,
        EditTool::Move => "移动要素"@,
        EditTool::AddPoint => "添加点"@,
        EditTool::AddLine => "添加线"@,
        EditTool::AddPolygon => "添加面"@,
        EditTool::AddHole => "添加洞"@,
        EditTool::Split => "分割要素"@,
        EditTool::Delete => "删除要素"@,
    }
}

impl EditTool {
    /// Display name.
    pub fn label(self) -> (r: &'static str)
        ensures
            r@ == edit_tool_label(self),
    {
        match self {
            EditTool::Select => "选择",
            EditTool::Vertex => "顶点编辑",
            EditTool::Move => "移动要素",
            EditTool::AddPoint => "添加点",
            EditTool::AddLine => "添加线",
            EditTool::AddPolygon => "添加面",
            EditTool::AddHole => "添加洞",
            EditTool::Split => "分割要素",
            EditTool::Delete => "删除要素",
        }
    }
}

/// Kind of sketch being drawn.
#[derive(Clone, Copy, PartialEq, Eq, Debug, Structural)]
pub enum DrawKind {
    /// Line (at least two vertices).
    Line,
    /// Polygon (at least three vertices, closed on finish).
    Polygon,
}

/// Fewest vertices a sketch of each kind needs.
pub open spec fn min_verts_of(k: DrawKind) -> nat {
    match k {
        DrawKind::Line => 2,
        DrawKind::Polygon => 3,
    }
}

/// Display name of each sketch kind.
pub open spec fn draw_kind_label(k: DrawKind) -> Seq<char> {
    match k {
        DrawKind::Line => "线"@,
        DrawKind::Polygon => "面"@,
    }
}

impl DrawKind {
    /// Fewest vertices.
    pub fn min_verts(self) -> (r: usize)
        ensures
            r == min_verts_of(self),
    {
        match self {
            DrawKind::Line => 2,
            DrawKind::Polygon => 3,
        }
    }

    /// Display name.
    pub fn label(self) -> (r: &'static str)
        ensures
            r@ == draw_kind_label(self),
    {
        match self {
            DrawKind::Line => "线",
            DrawKind::Polygon => "面",
        }
    }
}

/// The message refusing to finish a sketch of `kind` with `n` vertices.
pub open spec fn too_few_vertices_msg(kind: DrawKind, n: nat) -> Seq<char> {
    draw_kind_label(kind) + "要素至少需要 "@ + dec_seq(min_verts_of(kind)) + " 个顶点（当前 "@
        + dec_seq(n) + " 个）"@
}

/// A line or polygon sketch in progress: the vertices placed so far, in order.
/// The vertex type is left to the caller (data coordinates).
pub struct DrawState<V> {
    /// Sketch kind.
    pub kind: DrawKind,
    /// Vertices, in the order they were placed.
    pub verts: Vec<V>,
}

impl<V> DrawState<V> {
    /// Starts a sketch.
    pub fn new(kind: DrawKind) -> (r: Self)
        ensures
            r.kind == kind,
            r.verts@ == Seq::<V>::empty(),
    {
        DrawState { kind, verts: Vec::new() }
    }

    /// Places a vertex.
    pub fn add(&mut self, pt: V)
        ensures
            final(self).kind == old(self).kind,
            final(self).verts@ == old(self).verts@.push(pt),
    {
        self.verts.push(pt);
    }

    /// Removes the last vertex; `false` when there was none.
    pub fn undo(&mut self) -> (r: bool)
        ensures
            final(self).kind == old(self).kind,
            r == (old(self).verts@.len() > 0),
            r ==> final(self).verts@ == old(self).verts@.drop_last(),
            !r ==> final(self).verts@ == old(self).verts@,
    {
        match self.verts.pop() {
            Some(_) => true,
            None => false,
        }
    }

    /// Whether the sketch has enough vertices to finish; otherwise the message
    /// naming the kind, the minimum and the current count.
    pub fn check_finish(&self) -> (r: Result<(), String>)
        ensures
            r is Ok <==> self.verts@.len() >= min_verts_of(self.kind),
            r matches Err(m) ==> m@ == too_few_vertices_msg(self.kind, self.verts@.len()),
    {
        let n = self.verts.len();
        let min = self.kind.min_verts();
        if n < min {
            let mut m = String::from_str(self.kind.label());
            m.append("要素至少需要 ");
            push_decimal(&mut m, min as u64);
            m.append(" 个顶点（当前 ");
            push_decimal(&mut m, n as u64);
            m.append(" 个）");
            return Err(m);
        }
        Ok(())
    }
}

/// A finished sketch: a line, or a polygon's single closed ring.
pub enum Sketch<V> {
    /// The line's vertices.
    Line(Vec<V>),
    /// The polygon's ring, closed.
    Polygon(Vec<V>),
}

/// The ring of a polygon sketch: the vertices, closed by repeating the
/// first one unless the last already is the first.
pub open spec fn closed_ring<V>(verts: Seq<V>, first_is_last: bool) -> Seq<V> {
    if first_is_last || verts.len() == 0 {
        verts
    } else {
        verts.push(verts[0])
    }
}

impl<V: Copy> DrawState<V> {
    /// Finishes the sketch: a line keeps its vertices, a polygon's ring is
    /// closed; too few vertices give the message of `check_finish`.
    /// `first_is_last` says whether the last vertex placed equals the first
    /// (the vertex type's equality is the caller's).
    pub fn finish(&self, first_is_last: bool) -> (r: Result<Sketch<V>, String>)
        ensures
            self.verts@.len() < min_verts_of(self.kind) ==> (r matches Err(m) && m@
                == too_few_vertices_msg(self.kind, self.verts@.len())),
            self.verts@.len() >= min_verts_of(self.kind) ==> match self.kind {
                DrawKind::Line => (r matches Ok(Sketch::Line(l)) && l@ == self.verts@),
                DrawKind::Polygon => (r matches Ok(Sketch::Polygon(ring)) && ring@ == closed_ring(
                    self.verts@,
                    first_is_last,
                )),
            },
    {
        match self.check_finish() {
            Err(m) => return Err(m),
            Ok(()) => {},
        }
        let n = self.verts.len();
        let mut pts: Vec<V> = Vec::new();
        let mut i: usize = 0;
        while i < n
            invariant
                n == self.verts@.len(),
                i <= n,
                pts@ == self.verts@.take(i as int),
            decreases n - i,
        {
            pts.push(self.verts[i]);
            assert(pts@ =~= self.verts@.take(i + 1));
            i = i + 1;
        }
        assert(pts@ =~= self.verts@);
        match self.kind {
            DrawKind::Line => Ok(Sketch::Line(pts)),
            DrawKind::Polygon => {
                if !first_is_last && n > 0 {
                    let first = self.verts[0];
                    pts.push(first);
                }
                Ok(Sketch::Polygon(pts))
            },
        }
    }
}

/// Placing a vertex and taking it back leaves the sketch as it was.
pub proof fn law_add_then_undo<V>(before: Seq<V>, pt: V)
    ensures
        before.push(pt).len() > 0,
        before.push(pt).drop_last() == before,
{
    assert(before.push(pt).drop_last() =~= before);
}

/// Sketch kind drawn by each tool (holes reuse the polygon sketch).
pub open spec fn draw_kind_of_tool(tool: EditTool) -> Option<DrawKind> {
    match tool {
        EditTool::AddLine => Some(DrawKind::Line),
        EditTool::AddPolygon | EditTool::AddHole => Some(DrawKind::Polygon),
        _ => None,
    }
}

/// Sketch kind of a drawing tool; `None` for the others.
pub fn draw_kind_of(tool: EditTool) -> (r: Option<DrawKind>)
    ensures
        r == draw_kind_of_tool(tool),
{
    match tool {
        EditTool::AddLine => Some(DrawKind::Line),
        EditTool::AddPolygon | EditTool::AddHole => Some(DrawKind::Polygon),
        _ => None,
    }
}

/// Geometry type names an adding tool accepts, and the layer kind's name.
pub open spec fn tool_expectation(tool: EditTool) -> Option<(Seq<Seq<char>>, Seq<char>)> {
    match tool {
        EditTool::AddPoint => Some((seq!["Point"@, "MultiPoint"@], "点"@)),
        EditTool::AddLine => Some((seq!["LineString"@, "MultiLineString"@], "线"@)),
        EditTool::AddPolygon | EditTool::AddHole => Some(
            (seq!["Polygon"@, "MultiPolygon"@], "面"@),
        ),
        _ => None,
    }
}

/// The layer's geometry types allow the tool: not an adding tool, an empty
/// layer, or some type of the layer is one the tool accepts.
pub open spec fn tool_fits(tool: EditTool, types: Seq<Seq<char>>) -> bool {
    match tool_expectation(tool) {
        None => true,
        Some((expected, _)) => types.len() == 0 || exists|i: int|
            0 <= i < types.len() && expected.contains(#[trigger] types[i]),
    }
}

/// The message refusing `tool` on a layer of geometry types `types`.
pub open spec fn tool_mismatch_msg(tool: EditTool, types: Seq<Seq<char>>) -> Seq<char> {
    let zh = match tool_expectation(tool) {
        Some((_, zh)) => zh,
        None => seq![],
    };
    "「"@ + edit_tool_label(tool) + "」工具仅适用于"@ + zh + "图层（当前图层几何类型："@ + join_seq(
        types,
        "/"@,
    ) + "）"@
}

/// Whether `name` is one of the accepted names `a`, `b`.
fn is_one_of(name: &str, a: &str, b: &str) -> (r: bool)
    ensures
        r == seq![a@, b@].contains(name@),
{
    let r = str_eq(name, a) || str_eq(name, b);
    proof {
        if seq![a@, b@].contains(name@) {
            let i = choose|i: int| 0 <= i < 2 && seq![a@, b@][i] == name@;
            assert(i == 0 || i == 1);
        }
        if r {
            if name@ == a@ {
                assert(seq![a@, b@][0] == name@);
            } else {
                assert(seq![a@, b@][1] == name@);
            }
        }
    }
    r
}

/// Tool/layer geometry check: adding tools only work on layers of their own
/// geometry family; empty layers are allowed (the first feature sets the type).
pub fn tool_geometry_match(tool: EditTool, geometry_types: &[String]) -> (r: Result<(), String>)
    ensures
        r is Ok <==> tool_fits(tool, string_views(geometry_types@)),
        r matches Err(m) ==> m@ == tool_mismatch_msg(tool, string_views(geometry_types@)),
{
    let ghost types = string_views(geometry_types@);
    let (a, b, zh): (&str, &str, &str) = match tool {
        EditTool::AddPoint => ("Point", "MultiPoint", "点"),
        EditTool::AddLine => ("LineString", "MultiLineString", "线"),
        EditTool::AddPolygon | EditTool::AddHole => ("Polygon", "MultiPolygon", "面"),
        _ => {
            return Ok(());
        },
    };
    assert(tool_expectation(tool) == Some((seq![a@, b@], zh@)));
    let n = geometry_types.len();
    if n == 0 {
        return Ok(());
    }
    let mut i: usize = 0;
    while i < n
        invariant
            n == geometry_types@.len(),
            types == string_views(geometry_types@),
            tool_expectation(tool) == Some((seq![a@, b@], zh@)),
            i <= n,
            forall|k: int| 0 <= k < i ==> !seq![a@, b@].contains(#[trigger] types[k]),
        decreases n - i,
    {
        if is_one_of(geometry_types[i].as_str(), a, b) {
            assert(seq![a@, b@].contains(types[i as int]));
            return Ok(());
        }
        i = i + 1;
    }
    let mut m = String::from_str("「");
    m.append(tool.label());
    m.append("」工具仅适用于");
    m.append(zh);
    m.append("图层（当前图层几何类型：");
    let all = copy_strings(geometry_types);
    let joined = join(&all, "/");
    m.append(joined.as_str());
    m.append("）");
    Err(m)
}

/// Canvas input while an editing session is active.
pub struct EditView<'a, V> {
    /// Current tool.
    pub tool: EditTool,
    /// Target layer id.
    pub target: &'a str,
    /// Selected feature (handles highlighted).
    pub selected: Option<usize>,
    /// Sketch in progress (preview).
    pub drawing: Option<&'a DrawState<V>>,
    /// Vertex snapping on.
    pub snap: bool,
}

/// Some geometry type of the layer is `a` or `b`.
pub open spec fn has_type(types: Seq<Seq<char>>, a: Seq<char>, b: Seq<char>) -> bool {
    exists|i: int| 0 <= i < types.len() && (types[i] == a || types[i] == b)
}

/// Which layers each tool may work on: the point tool on layers holding
/// `Point` or `MultiPoint`, the line tool on `LineString` or
/// `MultiLineString`, the polygon and hole tools on `Polygon` or
/// `MultiPolygon`, each also on an empty layer; every other tool on any
/// layer.
pub proof fn law_tool_layer_fit(tool: EditTool, types: Seq<Seq<char>>)
    ensures
        tool == EditTool::AddPoint ==> (tool_fits(tool, types) <==> types.len() == 0 || has_type(
            types,
            "Point"@,
            "MultiPoint"@,
        )),
        tool == EditTool::AddLine ==> (tool_fits(tool, types) <==> types.len() == 0 || has_type(
            types,
            "LineString"@,
            "MultiLineString"@,
        )),
        (tool == EditTool::AddPolygon || tool == EditTool::AddHole) ==> (tool_fits(tool, types)
            <==> types.len() == 0 || has_type(types, "Polygon"@, "MultiPolygon"@)),
        !(tool == EditTool::AddPoint || tool == EditTool::AddLine || tool == EditTool::AddPolygon
            || tool == EditTool::AddHole) ==> tool_fits(tool, types),
{
    match tool {
        EditTool::AddPoint => {
            let e = seq!["Point"@, "MultiPoint"@];
            assert forall|x: Seq<char>| e.contains(x) <==> (x == "Point"@ || x == "MultiPoint"@) by {
                if x == "MultiPoint"@ {
                    assert(e[1] == x);
                }
                if x == "Point"@ {
                    assert(e[0] == x);
                }
            }
        },
        EditTool::AddLine => {
            let e = seq!["LineString"@, "MultiLineString"@];
            assert forall|x: Seq<char>| e.contains(x) <==> (x == "LineString"@ || x
                == "MultiLineString"@) by {
                if x == "MultiLineString"@ {
                    assert(e[1] == x);
                }
                if x == "LineString"@ {
                    assert(e[0] == x);
                }
            }
        },
        EditTool::AddPolygon | EditTool::AddHole => {
            let e = seq!["Polygon"@, "MultiPolygon"@];
            assert forall|x: Seq<char>| e.contains(x) <==> (x == "Polygon"@ || x
                == "MultiPolygon"@) by {
                if x == "MultiPolygon"@ {
                    assert(e[1] == x);
                }
                if x == "Polygon"@ {
                    assert(e[0] == x);
                }
            }
        },
        _ => {},
    }
}

} // verus!
