//! Catalog panel: the five fixed categories (map frames, layouts, databases,
//! service links, local data) and the lazily loaded local file tree.

use std::path::PathBuf;

use vstd::prelude::*;

use crate::icons::Icon;
use crate::text::{
    after_last, after_last_seq, chars_of, dec_seq, digit_char, has_char, lowercase_of, push_decimal,
    str_eq, to_lowercase,
};

verus! {

/// Filesystem paths are carried through the catalog unchanged.
#[verifier::external_type_specification]
#[verifier::external_body]
pub struct ExPathBuf(PathBuf);

/// Catalog action (dispatched by the application).
pub enum CatalogAction {
    /// Open a data file as a layer.
    LoadFile(PathBuf),
    /// Activate a map frame (reopens a closed one).
    ActivateFrame(usize),
    /// New 2D map frame.
    NewFrame2D,
    /// New 3D scene.
    NewFrame3D,
    /// Rename a map frame.
    RenameFrame(usize),
    /// Delete a map frame.
    DeleteFrame(usize),
    /// Activate a layout tab.
    ActivateLayout(usize),
    /// Delete a layout.
    DeleteLayout(usize),
    /// New layout.
    NewLayout,
    /// New service link.
    NewService,
    /// Delete a service link.
    DeleteService(usize),
    /// Connect a service and load it as a layer.
    ConnectService(usize),
}

/// Map frame row (supplied by the application).
pub struct FrameRow {
    /// Frame index (0 = the main frame).
    pub index: usize,
    /// Title.
    pub title: String,
    /// Dimension badge.
    pub dim_label: &'static str,
    /// Open (closed frames show dimmed).
    pub open: bool,
}

/// Layout row (supplied by the application).
pub struct LayoutRow {
    /// Title.
    pub title: String,
    /// Open (closed layouts show dimmed).
    pub open: bool,
}

impl FrameRow {
    /// The row's text: title and dimension, marked when the frame is closed.
    pub fn label(&self) -> (r: String)
        ensures
            r@ == self.title@ + "（"@ + self.dim_label@ + (if self.open {
                "）"@
            } else {
                "·已关闭）"@
            }),
    {
        let mut t = self.title.clone();
        t.append("（");
        t.append(self.dim_label);
        if self.open {
            t.append("）");
        } else {
            t.append("·已关闭）");
        }
        t
    }

    /// The row's hover text.
    pub fn hint(&self) -> (r: &'static str)
        ensures
            r@ == (if self.open {
                "单击激活；右键重命名/删除"@
            } else {
                "已关闭——单击重新打开；右键重命名/删除"@
            }),
    {
        if self.open {
            "单击激活；右键重命名/删除"
        } else {
            "已关闭——单击重新打开；右键重命名/删除"
        }
    }
}

impl LayoutRow {
    /// The row's text: the title, marked when the layout is closed.
    pub fn label(&self) -> (r: String)
        ensures
            r@ == self.title@ + (if self.open {
                seq![]
            } else {
                "（已关闭）"@
            }),
    {
        let mut t = self.title.clone();
        if !self.open {
            t.append("（已关闭）");
        }
        t
    }
}

/// Category header: name, icon, count badge and empty-state hint.
pub struct CategoryMeta {
    /// Name.
    pub name: &'static str,
    /// Icon.
    pub icon: Icon,
    /// Count badge.
    pub count: usize,
    /// Empty-state hint (`None` for categories that always list something).
    pub placeholder: Option<&'static str>,
}

/// The five category names, in their fixed order.
pub open spec fn category_names() -> Seq<Seq<char>> {
    seq!["地图框"@, "布局框"@, "数据库"@, "服务链接"@, "本机数据"@]
}

/// The five categories in fixed order with their counts.
pub fn categories(
    view_count: usize,
    layout_count: usize,
    has_default_kdb: bool,
    service_count: usize,
    root_count: usize,
) -> (r: [CategoryMeta; 5])
    ensures
        forall|i: int| 0 <= i < 5 ==> (#[trigger] r@[i]).name@ == category_names()[i],
        r@[0].count == view_count && r@[0].icon == Icon::Image && r@[0].placeholder is None,
        r@[1].count == layout_count && r@[1].icon == Icon::List && r@[1].placeholder is None,
        r@[2].count == (if has_default_kdb {
            1usize
        } else {
            0usize
        }) && r@[2].icon == Icon::Database && r@[2].placeholder is None,
        r@[3].count == service_count && r@[3].icon == Icon::Link && r@[3].placeholder
            == Some("暂无服务链接——＋新建 WFS GetFeature 连接"),
        r@[4].count == root_count && r@[4].icon == Icon::FolderPlain && r@[4].placeholder is None,
{
    let r = [
        CategoryMeta { name: "地图框", icon: Icon::Image, count: view_count, placeholder: None },
        CategoryMeta { name: "布局框", icon: Icon::List, count: layout_count, placeholder: None },
        CategoryMeta {
            name: "数据库",
            icon: Icon::Database,
            count: if has_default_kdb {
                1
            } else {
                0
            },
            placeholder: None,
        },
        CategoryMeta {
            name: "服务链接",
            icon: Icon::Link,
            count: service_count,
            placeholder: Some("暂无服务链接——＋新建 WFS GetFeature 连接"),
        },
        CategoryMeta { name: "本机数据", icon: Icon::FolderPlain, count: root_count, placeholder: None },
    ];
    r
}

/// A node of the local file tree; a directory's children are read on first
/// expansion (`None` = not read yet).
pub struct CatalogNode {
    /// Display name.
    pub name: String,
    /// Path.
    pub path: PathBuf,
    /// Directory or file.
    pub is_dir: bool,
    /// Expanded in the tree.
    pub expanded: bool,
    /// Children, once read.
    pub children: Option<Vec<CatalogNode>>,
    /// File size in bytes (`None` for directories).
    pub size: Option<u64>,
}

impl CatalogNode {
    /// A collapsed, unread directory node.
    pub fn dir(path: PathBuf, name: String) -> (r: Self)
        ensures
            r.name == name,
            r.path == path,
            r.is_dir,
            !r.expanded,
            r.children is None,
            r.size is None,
    {
        CatalogNode { name, path, is_dir: true, expanded: false, children: None, size: None }
    }

    /// A file node of `size` bytes.
    pub fn file(path: PathBuf, name: String, size: u64) -> (r: Self)
        ensures
            r.name == name,
            r.path == path,
            !r.is_dir,
            !r.expanded,
            r.children is None,
            r.size == Some(size),
    {
        CatalogNode { name, path, is_dir: false, expanded: false, children: None, size: Some(size) }
    }
}

/// The node reached by following the child indices `path` from `nodes`.
pub open spec fn node_at(nodes: Seq<CatalogNode>, path: Seq<usize>) -> Option<CatalogNode>
    decreases path.len(),
{
    if path.len() == 0 || path[0] >= nodes.len() {
        None
    } else if path.len() == 1 {
        Some(nodes[path[0] as int])
    } else {
        match nodes[path[0] as int].children {
            Some(ch) => node_at(ch@, path.drop_first()),
            None => None,
        }
    }
}

/// `after` is `before` with the node at `path` replaced by `node`, everything
/// else (including the ancestors' own fields) unchanged.
pub open spec fn replaced_at(
    before: Seq<CatalogNode>,
    after: Seq<CatalogNode>,
    path: Seq<usize>,
    node: CatalogNode,
) -> bool
    decreases path.len(),
{
    &&& path.len() >= 1
    &&& path[0] < before.len()
    &&& after.len() == before.len()
    &&& forall|j: int| 0 <= j < before.len() && j != path[0] ==> after[j] == before[j]
    &&& if path.len() == 1 {
        after[path[0] as int] == node
    } else {
        let (b, a) = (before[path[0] as int], after[path[0] as int]);
        &&& a.name == b.name
        &&& a.path == b.path
        &&& a.is_dir == b.is_dir
        &&& a.expanded == b.expanded
        &&& a.size == b.size
        &&& b.children is Some
        &&& a.children is Some
        &&& replaced_at(b.children.unwrap()@, a.children.unwrap()@, path.drop_first(), node)
    }
}

/// Whether a node exists at `idx_path[from..]` below `nodes`.
fn has_node_at(nodes: &Vec<CatalogNode>, idx_path: &[usize], from: usize) -> (r: bool)
    requires
        from <= idx_path@.len(),
    ensures
        r == node_at(nodes@, idx_path@.skip(from as int)) is Some,
    decreases idx_path@.len() - from,
{
    let ghost p = idx_path@.skip(from as int);
    if from >= idx_path.len() {
        return false;
    }
    let i = idx_path[from];
    assert(p[0] == i);
    if i >= nodes.len() {
        return false;
    }
    if from + 1 == idx_path.len() {
        return true;
    }
    assert(p.drop_first() =~= idx_path@.skip(from + 1));
    match &nodes[i].children {
        Some(ch) => has_node_at(ch, idx_path, from + 1),
        None => false,
    }
}

/// The node at `idx_path[from..]` below `nodes`, borrowed mutably (the node
/// must exist).
fn node_at_mut_from<'a>(nodes: &'a mut Vec<CatalogNode>, idx_path: &[usize], from: usize) -> (r:
    &'a mut CatalogNode)
    requires
        from <= idx_path@.len(),
        node_at(old(nodes)@, idx_path@.skip(from as int)) is Some,
    ensures
        *r == node_at(old(nodes)@, idx_path@.skip(from as int))->0,
        replaced_at(old(nodes)@, final(nodes)@, idx_path@.skip(from as int), *final(r)),
        node_at(final(nodes)@, idx_path@.skip(from as int)) == Some(*final(r)),
    decreases idx_path@.len() - from,
{
    let ghost p = idx_path@.skip(from as int);
    let i = idx_path[from];
    assert(p[0] == i);
    if from + 1 == idx_path.len() {
        return &mut nodes[i];
    }
    assert(p.drop_first() =~= idx_path@.skip(from + 1));
    let node = &mut nodes[i];
    let ch = node.children.as_mut().unwrap();
    node_at_mut_from(ch, idx_path, from + 1)
}

impl CatalogPanel {
    /// The node at an index path (one child index per level), borrowed mutably.
    pub fn node_at_mut<'a>(nodes: &'a mut Vec<CatalogNode>, idx_path: &[usize]) -> (r: Option<
        &'a mut CatalogNode,
    >)
        ensures
            match node_at(old(nodes)@, idx_path@) {
                None => r is None && final(nodes)@ == old(nodes)@,
                Some(n) => r matches Some(x) && *x == n && replaced_at(
                    old(nodes)@,
                    final(nodes)@,
                    idx_path@,
                    *final(x),
                ) && node_at(final(nodes)@, idx_path@) == Some(*final(x)),
            },
    {
        assert(idx_path@.skip(0) =~= idx_path@);
        if has_node_at(nodes, idx_path, 0) {
            Some(node_at_mut_from(nodes, idx_path, 0))
        } else {
            None
        }
    }
}

// ===== panel state =====

/// Catalog panel state: the local-data roots, a status note and which of the
/// five categories are expanded.
pub struct CatalogPanel {
    /// Local-data roots (home, desktop, documents, downloads, project, disks).
    pub roots: Vec<CatalogNode>,
    /// Status note (read failures).
    pub note: Option<String>,
    /// Category expansion (only local data expanded at first).
    pub expanded: [bool; 5],
}

impl CatalogPanel {
    /// A panel over the given roots, with only "local data" expanded.
    pub fn new(roots: Vec<CatalogNode>) -> (r: Self)
        ensures
            r.roots@ == roots@,
            r.note is None,
            r.expanded@ == seq![false, false, false, false, true],
    {
        let r = CatalogPanel { roots, note: None, expanded: [false, false, false, false, true] };
        assert(r.expanded@ =~= seq![false, false, false, false, true]);
        r
    }

    /// Shows only the "service links" category.
    pub fn demo_expand_services(&mut self)
        ensures
            final(self).expanded@ == seq![false, false, false, true, false],
            final(self).roots@ == old(self).roots@,
            final(self).note == old(self).note,
    {
        self.expanded = [false, false, false, true, false];
        assert(self.expanded@ =~= seq![false, false, false, true, false]);
    }

    /// Shows only the "map frames" category.
    pub fn demo_expand_frames(&mut self)
        ensures
            final(self).expanded@ == seq![true, false, false, false, false],
            final(self).roots@ == old(self).roots@,
            final(self).note == old(self).note,
    {
        self.expanded = [true, false, false, false, false];
        assert(self.expanded@ =~= seq![true, false, false, false, false]);
    }

    /// Expands or collapses category `ci`.
    pub fn toggle_category(&mut self, ci: usize)
        requires
            ci < 5,
        ensures
            final(self).expanded@ == old(self).expanded@.update(ci as int, !old(self).expanded@[ci as int]),
            final(self).roots@ == old(self).roots@,
            final(self).note == old(self).note,
    {
        let v = !self.expanded[ci];
        self.expanded[ci] = v;
    }

    /// Expands or collapses the tree node at `idx_path`; a directory expanded
    /// for the first time has its children read with `read` (a failed read
    /// leaves them unread and records the message in `note`). A path that
    /// names no node changes nothing.
    pub fn apply_toggle<F: Fn(&PathBuf) -> Result<Vec<CatalogNode>, String>>(
        &mut self,
        idx_path: &[usize],
        read: &F,
    )
        requires
            forall|p: &PathBuf| read.requires((p,)),
        ensures
            final(self).expanded == old(self).expanded,
            match node_at(old(self).roots@, idx_path@) {
                None => final(self).roots@ == old(self).roots@ && final(self).note == old(self).note,
                Some(n) => match node_at(final(self).roots@, idx_path@) {
                    None => false,
                    Some(m) => replaced_at(old(self).roots@, final(self).roots@, idx_path@, m)
                        && exists|e: Option<String>|
                        toggles(*read, n, m, e) && final(self).note == match e {
                            Some(msg) => Some(msg),
                            None => old(self).note,
                        },
                },
            },
    {
        match CatalogPanel::node_at_mut(&mut self.roots, idx_path) {
            Some(node) => {
                if let Some(e) = toggle_node(node, read) {
                    self.note = Some(e);
                }
            },
            None => {},
        }
    }

    /// Expands every category, the first root, and the first directory among
    /// the first root's children (reading unread children with `read`; a
    /// failed read leaves them unread).
    pub fn demo_expand_first<F: Fn(&PathBuf) -> Result<Vec<CatalogNode>, String>>(
        &mut self,
        read: &F,
    )
        requires
            forall|p: &PathBuf| read.requires((p,)),
        ensures
            final(self).expanded@ == seq![true, true, true, true, true],
            final(self).note == old(self).note,
            final(self).roots@.len() == old(self).roots@.len(),
            old(self).roots@.len() > 0 ==> exists|mid: CatalogNode|
                {
                    &&& #[trigger] expands(*read, old(self).roots@[0], mid)
                    &&& match mid.children {
                        Some(cs) => match first_dir(cs@) {
                            Some(k) => {
                                let f0 = final(self).roots@[0];
                                &&& f0.name == mid.name && f0.path == mid.path
                                &&& f0.is_dir == mid.is_dir && f0.size == mid.size
                                &&& f0.expanded == mid.expanded
                                &&& f0.children matches Some(fc) && fc@.len() == cs@.len()
                                    && expands(*read, cs@[k], fc@[k]) && forall|j: int|
                                    0 <= j < cs@.len() && j != k ==> fc@[j] == cs@[j]
                            },
                            None => final(self).roots@[0] == mid,
                        },
                        None => final(self).roots@[0] == mid,
                    }
                },
            forall|i: int| 1 <= i < old(self).roots@.len() ==> final(self).roots@[i] == old(self).roots@[i],
    {
        self.expanded = [true; 5];
        assert(self.expanded@ =~= seq![true, true, true, true, true]);
        if self.roots.len() == 0 {
            return;
        }
        let ghost old_roots = self.roots@;
        let mut root = self.roots.remove(0);
        expand_node(&mut root, read);
        let ghost mid = root;
        if let Some(mut children) = root.children.take() {
            let ghost cv = children;
            let ghost cs = children@;
            let n = children.len();
            let mut i: usize = 0;
            let mut done = false;
            while i < n && !done
                invariant
                    n == cs.len(),
                    children@.len() == n,
                    i <= n,
                    forall|p: &PathBuf| read.requires((p,)),
                    forall|j: int| 0 <= j < i ==> !(#[trigger] cs[j]).is_dir,
                    cs == cv@,
                    !done ==> children == cv,
                    done ==> i < n && cs[i as int].is_dir && expands(
                        *read,
                        cs[i as int],
                        children@[i as int],
                    ) && forall|j: int| 0 <= j < n && j != i ==> children@[j] == cs[j],
                decreases n - i + (if done {
                    0int
                } else {
                    1int
                }),
            {
                if children[i].is_dir {
                    let mut c = children.remove(i);
                    expand_node(&mut c, read);
                    children.insert(i, c);
                    done = true;
                } else {
                    i = i + 1;
                }
            }
            proof {
                if done {
                    let k = choose|k: int|
                        0 <= k < cs.len() && cs[k].is_dir && forall|j: int| 0 <= j < k ==> !cs[j].is_dir;
                    assert(cs[i as int].is_dir);
                    if k < i {
                        assert(!cs[k].is_dir);
                    } else if k > i {
                        assert(!cs[i as int].is_dir);
                    }
                    assert(first_dir(cs) == Some(i as int));
                } else {
                    assert(first_dir(cs) is None);
                }
            }
            root.children = Some(children);
            assert(mid.children == Some(cv));
        }
        self.roots.insert(0, root);
        assert(self.roots@[0] == root);
        assert forall|k: int| 1 <= k < old_roots.len() implies self.roots@[k] == old_roots[k] by {}
        assert(expands(*read, old_roots[0], mid));
    }
}

/// `read` may answer `res` for `path`.
pub open spec fn read_gives<F: Fn(&PathBuf) -> Result<Vec<CatalogNode>, String>>(
    read: F,
    path: PathBuf,
    res: Result<Vec<CatalogNode>, String>,
) -> bool {
    call_ensures(read, (&path,), res)
}

/// `new` is `old` expanded: unread children are read with `read` (kept
/// unread when the read fails); everything else stays.
pub open spec fn expands<F: Fn(&PathBuf) -> Result<Vec<CatalogNode>, String>>(
    read: F,
    old: CatalogNode,
    new: CatalogNode,
) -> bool {
    &&& new.expanded
    &&& new.name == old.name && new.path == old.path && new.is_dir == old.is_dir
    &&& new.size == old.size
    &&& old.children is Some ==> new.children == old.children
    &&& old.children is None ==> exists|res: Result<Vec<CatalogNode>, String>|
        read_gives(read, old.path, res) && new.children == match res {
            Ok(c) => Some(c),
            Err(_) => None,
        }
}

/// `new` is `old` with its expansion flipped; a directory expanded for the
/// first time gets the children `read` gives, or, when the read fails, stays
/// unread and the error is `err`.
pub open spec fn toggles<F: Fn(&PathBuf) -> Result<Vec<CatalogNode>, String>>(
    read: F,
    old: CatalogNode,
    new: CatalogNode,
    err: Option<String>,
) -> bool {
    &&& new.expanded == !old.expanded
    &&& new.name == old.name && new.path == old.path && new.is_dir == old.is_dir
    &&& new.size == old.size
    &&& if old.expanded || old.children is Some {
        new.children == old.children && err is None
    } else {
        exists|res: Result<Vec<CatalogNode>, String>|
            read_gives(read, old.path, res) && match res {
                Ok(c) => new.children == Some(c) && err is None,
                Err(e) => new.children is None && err == Some(e),
            }
    }
}

/// The index of the first directory among `cs`, if any.
pub open spec fn first_dir(cs: Seq<CatalogNode>) -> Option<int> {
    if exists|k: int| 0 <= k < cs.len() && cs[k].is_dir {
        Some(choose|k: int| 0 <= k < cs.len() && cs[k].is_dir && forall|j: int| 0 <= j < k ==> !cs[j].is_dir)
    } else {
        None
    }
}

/// Toggles a node's expansion, reading its children with `read` when it is
/// expanded for the first time; returns the read error, if any.
fn toggle_node<F: Fn(&PathBuf) -> Result<Vec<CatalogNode>, String>>(node: &mut CatalogNode, read: &F) -> (r: Option<String>)
    requires
        forall|p: &PathBuf| read.requires((p,)),
    ensures
        toggles(*read, *old(node), *final(node), r),
{
    let mut err: Option<String> = None;
    if !node.expanded && node.children.is_none() {
        let res = read(&node.path);
        assert(read_gives(*read, node.path, res));
        match res {
            Ok(children) => {
                node.children = Some(children);
            },
            Err(e) => {
                err = Some(e);
            },
        }
    }
    node.expanded = !node.expanded;
    err
}

/// Expands a node, reading its children with `read` if they were never read
/// (a failed read leaves them unread).
fn expand_node<F: Fn(&PathBuf) -> Result<Vec<CatalogNode>, String>>(node: &mut CatalogNode, read: &F)
    requires
        forall|p: &PathBuf| read.requires((p,)),
    ensures
        expands(*read, *old(node), *final(node)),
{
    if node.children.is_none() {
        let res = read(&node.path);
        assert(read_gives(*read, node.path, res));
        match res {
            Ok(children) => {
                node.children = Some(children);
            },
            Err(_) => {},
        }
    }
    node.expanded = true;
}


// ===== reading a directory =====

/// What the application read about one directory entry.
pub struct DirEntryInfo {
    /// File name.
    pub name: String,
    /// Full path.
    pub path: PathBuf,
    /// Whether it is a directory.
    pub is_dir: bool,
    /// Size in bytes (0 when unknown).
    pub size: u64,
}

/// File extensions the catalog lists (data formats, projects, databases).
pub const DATA_EXTENSIONS: [&'static str; 14] = [
    "shp",
    "geojson",
    "json",
    "fgb",
    "parquet",
    "dxf",
    "dwg",
    "kml",
    "kmz",
    "csv",
    "tsv",
    "xlsx",
    "kdb",
    "kyu",
];

/// ASCII lowercase of one character.
pub open spec fn ascii_lower(c: char) -> char {
    if 'A' <= c && c <= 'Z' {
        ((c as u32) + 32) as char
    } else {
        c
    }
}

/// ASCII lowercase of a character sequence (as `str::to_ascii_lowercase`).
pub open spec fn ascii_lower_seq(s: Seq<char>) -> Seq<char> {
    s.map_values(|c: char| ascii_lower(c))
}

/// ASCII lowercase of one character.
fn ascii_lower_char(c: char) -> (r: char)
    ensures
        r == ascii_lower(c),
{
    if 'A' <= c && c <= 'Z' {
        let b = c as u32 + 32;
        assert(b < 0xD800);
        ((c as u8) + 32) as char
    } else {
        c
    }
}

/// Whether `a`, lowered to ASCII lowercase, equals `b`.
fn eq_lowered(a: &str, b: &str) -> (r: bool)
    ensures
        r == (ascii_lower_seq(a@) == b@),
{
    let x = chars_of(a);
    let y = chars_of(b);
    if x.len() != y.len() {
        return false;
    }
    let n = x.len();
    let mut i: usize = 0;
    while i < n
        invariant
            n == x@.len(),
            n == y@.len(),
            x@ == a@,
            y@ == b@,
            i <= n,
            forall|k: int| 0 <= k < i ==> ascii_lower(a@[k]) == b@[k],
        decreases n - i,
    {
        if ascii_lower_char(x[i]) != y[i] {
            assert(ascii_lower_seq(a@)[i as int] != b@[i as int]);
            return false;
        }
        i = i + 1;
    }
    assert(ascii_lower_seq(a@) =~= b@);
    true
}

/// A file name lists in the catalog: it has an extension (text after the last
/// `.`) that, lowercased, is one of [`DATA_EXTENSIONS`].
pub open spec fn is_data_file_name(name: Seq<char>) -> bool {
    has_char(name, '.') && exists|k: int|
        0 <= k < 14 && ascii_lower_seq(after_last_seq(name, '.')) == (
        #[trigger] DATA_EXTENSIONS@[k])@
}

/// Whether a (non-hidden) file name has a data extension.
fn is_data_file(name: &str) -> (r: bool)
    ensures
        r == is_data_file_name(name@),
{
    let v = chars_of(name);
    let n = v.len();
    let mut i: usize = 0;
    while i < n && v[i] != '.'
        invariant
            n == v@.len(),
            v@ == name@,
            i <= n,
            forall|k: int| 0 <= k < i ==> name@[k] != '.',
        decreases n - i,
    {
        i = i + 1;
    }
    if i == n {
        return false;
    }
    let ext = after_last(name, '.');
    let mut k: usize = 0;
    while k < 14
        invariant
            k <= 14,
            ext@ == after_last_seq(name@, '.'),
            has_char(name@, '.'),
            forall|j: int| 0 <= j < k ==> ascii_lower_seq(ext@) != (#[trigger] DATA_EXTENSIONS@[j])@,
        decreases 14 - k,
    {
        if eq_lowered(ext, DATA_EXTENSIONS[k]) {
            return true;
        }
        k = k + 1;
    }
    false
}

/// The lowercased extension of a file name: the text after its last `.`,
/// or nothing without a `.`.
pub open spec fn extension_of(name: Seq<char>) -> Seq<char> {
    if has_char(name, '.') {
        ascii_lower_seq(after_last_seq(name, '.'))
    } else {
        seq![]
    }
}

/// The icon and colour (RGB) of a catalog node: a folder, or by the file's
/// extension a project, a database, a drawing or a data layer.
pub open spec fn node_visual_of(is_dir: bool, name: Seq<char>) -> (Icon, [u8; 3]) {
    let ext = extension_of(name);
    if is_dir {
        (Icon::FolderPlain, [0xD4u8, 0xA8u8, 0x43u8])
    } else if ext == "kyu"@ {
        (Icon::Project, [0xC7u8, 0x5Bu8, 0x3Au8])
    } else if ext == "kdb"@ {
        (Icon::Database, [0x2Du8, 0x6Au8, 0x5Eu8])
    } else if ext == "dwg"@ || ext == "dxf"@ {
        (Icon::Cad, [0x4Au8, 0x7Cu8, 0x9Bu8])
    } else {
        (Icon::Layers, [0x2Du8, 0x6Au8, 0x5Eu8])
    }
}

/// The icon and colour of a node in the file tree, decided from its name
/// (listed names never start with a dot, so the text after the last `.` is
/// the path's extension).
pub fn node_visual(node: &CatalogNode) -> (r: (Icon, [u8; 3]))
    ensures
        r == node_visual_of(node.is_dir, node.name@),
{
    if node.is_dir {
        return (Icon::FolderPlain, [0xD4u8, 0xA8u8, 0x43u8]);
    }
    let name = node.name.as_str();
    let v = chars_of(name);
    let n = v.len();
    let mut i: usize = 0;
    while i < n && v[i] != '.'
        invariant
            n == v@.len(),
            v@ == name@,
            i <= n,
            forall|k: int| 0 <= k < i ==> name@[k] != '.',
        decreases n - i,
    {
        i = i + 1;
    }
    proof {
        reveal_strlit("kyu");
        reveal_strlit("kdb");
        reveal_strlit("dwg");
        reveal_strlit("dxf");
    }
    if i == n {
        assert(!has_char(name@, '.'));
        assert(extension_of(name@) =~= seq![]);
        return (Icon::Layers, [0x2Du8, 0x6Au8, 0x5Eu8]);
    }
    let ext = after_last(name, '.');
    if eq_lowered(ext, "kyu") {
        (Icon::Project, [0xC7u8, 0x5Bu8, 0x3Au8])
    } else if eq_lowered(ext, "kdb") {
        (Icon::Database, [0x2Du8, 0x6Au8, 0x5Eu8])
    } else if eq_lowered(ext, "dwg") || eq_lowered(ext, "dxf") {
        (Icon::Cad, [0x4Au8, 0x7Cu8, 0x9Bu8])
    } else {
        (Icon::Layers, [0x2Du8, 0x6Au8, 0x5Eu8])
    }
}

/// Whether `name` starts with a dot (hidden).
pub open spec fn is_hidden_name(name: Seq<char>) -> bool {
    name.len() > 0 && name[0] == '.'
}

/// Lexicographic "less than" on code points (the order of `String`, whose
/// byte order in UTF-8 is the code point order).
pub open spec fn lex_lt(a: Seq<char>, b: Seq<char>) -> bool
    decreases a.len(),
{
    if b.len() == 0 {
        false
    } else if a.len() == 0 {
        true
    } else if (a[0] as u32) < (b[0] as u32) {
        true
    } else if (a[0] as u32) > (b[0] as u32) {
        false
    } else {
        lex_lt(a.drop_first(), b.drop_first())
    }
}

/// Distinct characters have distinct code points.
proof fn lemma_code_point_injective(c: char, d: char)
    requires
        c != d,
    ensures
        (c as u32) != (d as u32),
{
}

/// Whether `a < b` in string order.
fn lex_less(a: &Vec<char>, b: &Vec<char>) -> (r: bool)
    ensures
        r == lex_lt(a@, b@),
{
    let n = a.len();
    let m = b.len();
    let mut i: usize = 0;
    assert(a@.skip(0) =~= a@);
    assert(b@.skip(0) =~= b@);
    while i < n && i < m && a[i] == b[i]
        invariant
            n == a@.len(),
            m == b@.len(),
            i <= n,
            i <= m,
            lex_lt(a@, b@) == lex_lt(a@.skip(i as int), b@.skip(i as int)),
        decreases n - i,
    {
        assert(a@.skip(i as int).drop_first() =~= a@.skip(i + 1));
        assert(b@.skip(i as int).drop_first() =~= b@.skip(i + 1));
        i = i + 1;
    }
    let ghost sa = a@.skip(i as int);
    let ghost sb = b@.skip(i as int);
    assert(sa.len() == n - i);
    assert(sb.len() == m - i);
    let r = if i == m {
        false
    } else if i == n {
        true
    } else {
        let ca: char = a[i];
        let cb: char = b[i];
        let x = ca as u32;
        let y = cb as u32;
        assert(sa[0] == ca);
        assert(sb[0] == cb);
        proof {
            lemma_code_point_injective(ca, cb);
        }
        assert(x != y);
        x < y
    };
    assert(r == lex_lt(sa, sb));
    r
}

/// A node with its sort key.
pub type Keyed = (CatalogNode, Seq<char>);

/// Nodes paired with the keys at the same positions.
pub open spec fn zip_keys(v: Seq<CatalogNode>, keys: Seq<Seq<char>>) -> Seq<Keyed> {
    Seq::new(v.len(), |i: int| (v[i], keys[i]))
}

/// Nodes paired with their lowercased names.
pub open spec fn keyed(v: Seq<CatalogNode>) -> Seq<Keyed> {
    v.map_values(|n: CatalogNode| (n, lowercase_of(n.name@)))
}

/// The nodes of a keyed sequence.
pub open spec fn firsts(s: Seq<Keyed>) -> Seq<CatalogNode> {
    s.map_values(|p: Keyed| p.0)
}

/// Inserts `x` into `s` after every element whose key is not greater.
pub open spec fn insert_by_key(s: Seq<Keyed>, x: Keyed) -> Seq<Keyed>
    decreases s.len(),
{
    if s.len() == 0 {
        seq![x]
    } else if lex_lt(x.1, s.last().1) {
        insert_by_key(s.drop_last(), x).push(s.last())
    } else {
        s.push(x)
    }
}

/// `s` stably sorted by key (equal keys keep their order), as `sort_by_key`.
pub open spec fn sorted_by_key(s: Seq<Keyed>) -> Seq<Keyed>
    decreases s.len(),
{
    if s.len() == 0 {
        s
    } else {
        insert_by_key(sorted_by_key(s.drop_last()), s.last())
    }
}

/// Inserting at `j`, when every element from `j` on has a greater key and the
/// one before `j` does not, is `insert_by_key`.
proof fn lemma_insert_at(s: Seq<Keyed>, x: Keyed, j: int)
    requires
        0 <= j <= s.len(),
        forall|k: int| j <= k < s.len() ==> lex_lt(x.1, (#[trigger] s[k]).1),
        j > 0 ==> !lex_lt(x.1, s[j - 1].1),
    ensures
        insert_by_key(s, x) == s.insert(j, x),
    decreases s.len(),
{
    if s.len() == 0 {
        assert(s.insert(0, x) =~= seq![x]);
    } else if j == s.len() {
        assert(s.insert(j, x) =~= s.push(x));
    } else {
        assert(lex_lt(x.1, s[s.len() - 1].1));
        lemma_insert_at(s.drop_last(), x, j);
        assert(s.insert(j, x) =~= s.drop_last().insert(j, x).push(s.last()));
    }
}

// ===== order of names =====

/// No sequence precedes itself.
pub proof fn lemma_lex_irreflexive(a: Seq<char>)
    ensures
        !lex_lt(a, a),
    decreases a.len(),
{
    if a.len() > 0 {
        lemma_lex_irreflexive(a.drop_first());
    }
}

/// The order is asymmetric.
pub proof fn lemma_lex_asymmetric(a: Seq<char>, b: Seq<char>)
    requires
        lex_lt(a, b),
    ensures
        !lex_lt(b, a),
    decreases a.len(),
{
    if a.len() > 0 && b.len() > 0 && (a[0] as u32) == (b[0] as u32) {
        lemma_lex_asymmetric(a.drop_first(), b.drop_first());
    }
}

/// The order is transitive.
pub proof fn lemma_lex_transitive(a: Seq<char>, b: Seq<char>, c: Seq<char>)
    requires
        lex_lt(a, b),
        lex_lt(b, c),
    ensures
        lex_lt(a, c),
    decreases a.len(),
{
    if a.len() > 0 && b.len() > 0 && c.len() > 0 && (a[0] as u32) == (b[0] as u32) && (b[0] as u32)
        == (c[0] as u32) {
        lemma_lex_transitive(a.drop_first(), b.drop_first(), c.drop_first());
    }
}

/// Two sequences neither of which precedes the other are equal.
pub proof fn lemma_lex_total(a: Seq<char>, b: Seq<char>)
    requires
        !lex_lt(a, b),
        !lex_lt(b, a),
    ensures
        a == b,
    decreases a.len(),
{
    if a.len() > 0 && b.len() > 0 {
        assert((a[0] as u32) == (b[0] as u32));
        if a[0] != b[0] {
            lemma_code_point_injective(a[0], b[0]);
        }
        lemma_lex_total(a.drop_first(), b.drop_first());
        assert(a =~= seq![a[0]] + a.drop_first());
        assert(b =~= seq![b[0]] + b.drop_first());
    }
}

/// Keys never decrease along `s`.
pub open spec fn keys_sorted(s: Seq<Keyed>) -> bool {
    forall|i: int, j: int| 0 <= i < j < s.len() ==> !lex_lt((#[trigger] s[j]).1, (#[trigger] s[i]).1)
}

/// Inserting keeps the keys sorted, and puts `x` at some position.
proof fn lemma_insert_keeps_sorted(s: Seq<Keyed>, x: Keyed) -> (j: int)
    requires
        keys_sorted(s),
    ensures
        0 <= j <= s.len(),
        insert_by_key(s, x) == s.insert(j, x),
        keys_sorted(insert_by_key(s, x)),
    decreases s.len(),
{
    if s.len() == 0 {
        assert(s.insert(0, x) =~= seq![x]);
        0
    } else if lex_lt(x.1, s.last().1) {
        let p = s.drop_last();
        assert(keys_sorted(p)) by {
            assert forall|i: int, j: int| 0 <= i < j < p.len() implies !lex_lt(
                (#[trigger] p[j]).1,
                (#[trigger] p[i]).1,
            ) by {
                assert(p[i] == s[i] && p[j] == s[j]);
            }
        }
        let k = lemma_insert_keeps_sorted(p, x);
        let r = insert_by_key(s, x);
        let q = insert_by_key(p, x);
        assert(r == q.push(s.last()));
        assert(s.insert(k, x) =~= p.insert(k, x).push(s.last()));
        assert forall|i: int, j: int| 0 <= i < j < r.len() implies !lex_lt(
            (#[trigger] r[j]).1,
            (#[trigger] r[i]).1,
        ) by {
            if j < r.len() - 1 {
                assert(r[i] == q[i] && r[j] == q[j]);
            } else {
                assert(r[j] == s.last());
                if i == k {
                    assert(r[i] == x);
                    lemma_lex_asymmetric(x.1, s.last().1);
                } else if i < k {
                    assert(r[i] == s[i]);
                } else {
                    assert(r[i] == s[i - 1]);
                }
            }
        }
        k
    } else {
        let r = s.push(x);
        assert forall|i: int, j: int| 0 <= i < j < r.len() implies !lex_lt(
            (#[trigger] r[j]).1,
            (#[trigger] r[i]).1,
        ) by {
            if j == s.len() {
                let l = s.len() - 1;
                if lex_lt(x.1, s[i].1) {
                    if i < l {
                        assert(!lex_lt(s[l].1, s[i].1));
                        if lex_lt(s[i].1, s[l].1) {
                            lemma_lex_transitive(x.1, s[i].1, s[l].1);
                        } else {
                            lemma_lex_total(s[i].1, s[l].1);
                        }
                    }
                }
            } else {
                assert(r[i] == s[i] && r[j] == s[j]);
            }
        }
        assert(s.insert(s.len() as int, x) =~= r);
        s.len() as int
    }
}

/// Sorting by key gives sorted keys, and only elements of the input.
pub proof fn lemma_sorted_by_key(s: Seq<Keyed>)
    ensures
        keys_sorted(sorted_by_key(s)),
        sorted_by_key(s).len() == s.len(),
        forall|i: int| 0 <= i < s.len() ==> s.contains(#[trigger] sorted_by_key(s)[i]),
    decreases s.len(),
{
    if s.len() > 0 {
        let p = s.drop_last();
        lemma_sorted_by_key(p);
        let q = sorted_by_key(p);
        let j = lemma_insert_keeps_sorted(q, s.last());
        let r = sorted_by_key(s);
        assert(r == q.insert(j, s.last()));
        assert forall|i: int| 0 <= i < s.len() implies s.contains(#[trigger] r[i]) by {
            if i < j {
                assert(r[i] == q[i]);
                assert(p.contains(q[i]));
                let k = choose|k: int| 0 <= k < p.len() && p[k] == q[i];
                assert(s[k] == p[k]);
            } else if i == j {
                assert(s[s.len() - 1] == s.last());
            } else {
                assert(r[i] == q[i - 1]);
                assert(p.contains(q[i - 1]));
                let k = choose|k: int| 0 <= k < p.len() && p[k] == q[i - 1];
                assert(s[k] == p[k]);
            }
        }
    }
}

/// Every node of `dir_nodes` is a directory; every node of `file_nodes` is
/// a file.
proof fn lemma_node_kinds(es: Seq<DirEntryInfo>)
    ensures
        forall|i: int| 0 <= i < dir_nodes(es).len() ==> (#[trigger] dir_nodes(es)[i]).is_dir,
        forall|i: int| 0 <= i < file_nodes(es).len() ==> !(#[trigger] file_nodes(es)[i]).is_dir,
    decreases es.len(),
{
    if es.len() > 0 {
        lemma_node_kinds(es.drop_last());
    }
}

/// A directory listing shows directories before files, and each group in
/// name order (case-insensitive: by lowercased name).
pub proof fn law_children_order(entries: Seq<DirEntryInfo>)
    ensures
        ({
            let d = sorted_by_key(keyed(dir_nodes(entries)));
            let f = sorted_by_key(keyed(file_nodes(entries)));
            &&& keys_sorted(d)
            &&& keys_sorted(f)
            &&& forall|i: int| 0 <= i < d.len() ==> (#[trigger] d[i]).0.is_dir
            &&& forall|i: int| 0 <= i < f.len() ==> !(#[trigger] f[i]).0.is_dir
            &&& forall|i: int| 0 <= i < d.len() ==> d[i].1 == lowercase_of(d[i].0.name@)
            &&& forall|i: int| 0 <= i < f.len() ==> f[i].1 == lowercase_of(f[i].0.name@)
        }),
{
    let dn = keyed(dir_nodes(entries));
    let fnodes = keyed(file_nodes(entries));
    lemma_sorted_by_key(dn);
    lemma_sorted_by_key(fnodes);
    lemma_node_kinds(entries);
    let d = sorted_by_key(dn);
    let f = sorted_by_key(fnodes);
    assert forall|i: int| 0 <= i < d.len() implies (#[trigger] d[i]).0.is_dir && d[i].1
        == lowercase_of(d[i].0.name@) by {
        assert(dn.contains(d[i]));
        let k = choose|k: int| 0 <= k < dn.len() && dn[k] == d[i];
        assert(dn[k].0 == dir_nodes(entries)[k]);
    }
    assert forall|i: int| 0 <= i < f.len() implies !(#[trigger] f[i]).0.is_dir && f[i].1
        == lowercase_of(f[i].0.name@) by {
        assert(fnodes.contains(f[i]));
        let k = choose|k: int| 0 <= k < fnodes.len() && fnodes[k] == f[i];
        assert(fnodes[k].0 == file_nodes(entries)[k]);
    }
}

/// The views of a list of character vectors.
pub open spec fn char_views(v: Seq<Vec<char>>) -> Seq<Seq<char>> {
    v.map_values(|c: Vec<char>| c@)
}

/// Inserts `x` (with key `kx`) into `nodes`/`keys`, kept sorted by key.
fn insert_sorted(
    nodes: &mut Vec<CatalogNode>,
    keys: &mut Vec<Vec<char>>,
    x: CatalogNode,
    kx: Vec<char>,
)
    requires
        old(keys)@.len() == old(nodes)@.len(),
    ensures
        final(keys)@.len() == final(nodes)@.len(),
        zip_keys(final(nodes)@, char_views(final(keys)@)) == insert_by_key(
            zip_keys(old(nodes)@, char_views(old(keys)@)),
            (x, kx@),
        ),
{
    let ghost s = zip_keys(nodes@, char_views(keys@));
    let mut j: usize = nodes.len();
    while j > 0 && lex_less(&kx, &keys[j - 1])
        invariant
            keys@.len() == nodes@.len(),
            keys@ == old(keys)@,
            nodes@ == old(nodes)@,
            s == zip_keys(nodes@, char_views(keys@)),
            j <= nodes@.len(),
            forall|k: int| j <= k < nodes@.len() ==> lex_lt(kx@, (#[trigger] s[k]).1),
        decreases j,
    {
        assert(s[j - 1].1 == keys@[j - 1]@);
        j = j - 1;
    }
    proof {
        if j > 0 {
            assert(s[j - 1].1 == keys@[j - 1]@);
        }
        lemma_insert_at(s, (x, kx@), j as int);
    }
    let ghost kv = kx@;
    nodes.insert(j, x);
    keys.insert(j, kx);
    assert(zip_keys(nodes@, char_views(keys@)) =~= s.insert(j as int, (x, kv)));
}

/// Nodes stably sorted by the keys at their positions (as `sort_by_key`).
pub fn sort_by_keys(v: Vec<CatalogNode>, keys: Vec<Vec<char>>) -> (r: Vec<CatalogNode>)
    requires
        keys@.len() == v@.len(),
    ensures
        r@ == firsts(sorted_by_key(zip_keys(v@, char_views(keys@)))),
{
    let ghost s = zip_keys(v@, char_views(keys@));
    let mut v = v;
    let mut keys = keys;
    let mut out: Vec<CatalogNode> = Vec::new();
    let mut out_keys: Vec<Vec<char>> = Vec::new();
    let n = v.len();
    let mut i: usize = 0;
    assert(zip_keys(out@, char_views(out_keys@)) =~= sorted_by_key(s.take(0)));
    while i < n
        invariant
            n == s.len(),
            i <= n,
            v@.len() == n - i,
            keys@.len() == n - i,
            zip_keys(v@, char_views(keys@)) == s.skip(i as int),
            out_keys@.len() == out@.len(),
            zip_keys(out@, char_views(out_keys@)) == sorted_by_key(s.take(i as int)),
        decreases n - i,
    {
        let ghost rest = zip_keys(v@, char_views(keys@));
        let x = v.remove(0);
        let kx = keys.remove(0);
        assert(rest[0] == (x, kx@));
        assert(s[i as int] == rest[0]);
        assert(zip_keys(v@, char_views(keys@)) =~= rest.drop_first());
        insert_sorted(&mut out, &mut out_keys, x, kx);
        assert(s.take(i + 1).drop_last() =~= s.take(i as int));
        assert(s.skip(i as int).drop_first() =~= s.skip(i + 1));
        i = i + 1;
    }
    assert(s.take(n as int) =~= s);
    assert(firsts(zip_keys(out@, char_views(out_keys@))) =~= out@);
    out
}

/// Nodes stably sorted by lowercased name.
fn sort_nodes(v: Vec<CatalogNode>) -> (r: Vec<CatalogNode>)
    ensures
        r@ == firsts(sorted_by_key(keyed(v@))),
{
    let n = v.len();
    let mut keys: Vec<Vec<char>> = Vec::new();
    let mut i: usize = 0;
    while i < n
        invariant
            n == v@.len(),
            i <= n,
            char_views(keys@) == Seq::new(i as nat, |k: int| lowercase_of(v@[k].name@)),
        decreases n - i,
    {
        let key = to_lowercase(v[i].name.as_str());
        let ghost before = keys@;
        let kc = chars_of(key.as_str());
        let ghost kv = kc@;
        assert(kv == lowercase_of(v@[i as int].name@));
        keys.push(kc);
        assert(char_views(keys@) =~= char_views(before).push(kv));
        assert(char_views(keys@) =~= Seq::new((i + 1) as nat, |k: int| lowercase_of(v@[k].name@)));
        i = i + 1;
    }
    let ghost vv = v@;
    assert(zip_keys(vv, char_views(keys@)) =~= keyed(vv));
    sort_by_keys(v, keys)
}

/// The directory node of an entry.
pub open spec fn dir_node_of(e: DirEntryInfo) -> CatalogNode {
    CatalogNode { name: e.name, path: e.path, is_dir: true, expanded: false, children: None, size: None }
}

/// The file node of an entry.
pub open spec fn file_node_of(e: DirEntryInfo) -> CatalogNode {
    CatalogNode {
        name: e.name,
        path: e.path,
        is_dir: false,
        expanded: false,
        children: None,
        size: Some(e.size),
    }
}

/// Visible subdirectories of `es`, as nodes, in read order.
pub open spec fn dir_nodes(es: Seq<DirEntryInfo>) -> Seq<CatalogNode>
    decreases es.len(),
{
    if es.len() == 0 {
        seq![]
    } else {
        let e = es.last();
        let p = dir_nodes(es.drop_last());
        if !is_hidden_name(e.name@) && e.is_dir {
            p.push(dir_node_of(e))
        } else {
            p
        }
    }
}

/// Visible data files of `es`, as nodes, in read order.
pub open spec fn file_nodes(es: Seq<DirEntryInfo>) -> Seq<CatalogNode>
    decreases es.len(),
{
    if es.len() == 0 {
        seq![]
    } else {
        let e = es.last();
        let p = file_nodes(es.drop_last());
        if !is_hidden_name(e.name@) && !e.is_dir && is_data_file_name(e.name@) {
            p.push(file_node_of(e))
        } else {
            p
        }
    }
}

/// The children of a directory from its entries: hidden entries (leading dot)
/// and files without a data extension are skipped; directories come first;
/// each group is sorted by lowercased name, keeping read order for ties.
pub fn children_from_entries(entries: Vec<DirEntryInfo>) -> (r: Vec<CatalogNode>)
    ensures
        r@ == firsts(sorted_by_key(keyed(dir_nodes(entries@)))) + firsts(
            sorted_by_key(keyed(file_nodes(entries@))),
        ),
{
    let ghost es = entries@;
    let mut entries = entries;
    let mut dirs: Vec<CatalogNode> = Vec::new();
    let mut files: Vec<CatalogNode> = Vec::new();
    let n = entries.len();
    let mut i: usize = 0;
    while i < n
        invariant
            n == es.len(),
            i <= n,
            entries@ == es.skip(i as int),
            dirs@ == dir_nodes(es.take(i as int)),
            files@ == file_nodes(es.take(i as int)),
        decreases n - i,
    {
        let e = entries.remove(0);
        assert(e == es[i as int]);
        assert(es.take(i + 1).drop_last() =~= es.take(i as int));
        assert(es.take(i + 1).last() == e);
        assert(es.skip(i as int).drop_first() =~= es.skip(i + 1));
        let v = chars_of(e.name.as_str());
        let hidden = v.len() > 0 && v[0] == '.';
        if !hidden {
            if e.is_dir {
                dirs.push(CatalogNode::dir(e.path, e.name));
            } else if is_data_file(e.name.as_str()) {
                files.push(CatalogNode::file(e.path, e.name, e.size));
            }
        }
        i = i + 1;
    }
    assert(es.take(n as int) =~= es);
    let mut out = sort_nodes(dirs);
    let mut sorted_files = sort_nodes(files);
    out.append(&mut sorted_files);
    out
}

// ===== sizes =====

/// Bytes in a kibibyte.
pub const KB: u64 = 1024;

/// Bytes in a mebibyte.
pub const MB: u64 = 1048576;

/// Bytes in a gibibyte.
pub const GB: u64 = 1073741824;

/// `bytes / unit` in tenths, rounded to nearest with ties to even (the
/// rounding of `{:.1}`).
pub open spec fn tenths(bytes: nat, unit: nat) -> nat {
    let q = (bytes * 10) / unit;
    let r = (bytes * 10) % unit;
    if 2 * r > unit || (2 * r == unit && q % 2 == 1) {
        q + 1
    } else {
        q
    }
}

/// A count of tenths written with one decimal.
pub open spec fn one_decimal(t: nat) -> Seq<char> {
    dec_seq(t / 10) + "."@ + seq![digit_char(t % 10)]
}

/// Friendly file size: one decimal in GB, MB or KB from 1 KB up, else bytes.
pub open spec fn human_size_seq(bytes: nat) -> Seq<char> {
    if bytes >= GB {
        one_decimal(tenths(bytes, GB as nat)) + " GB"@
    } else if bytes >= MB {
        one_decimal(tenths(bytes, MB as nat)) + " MB"@
    } else if bytes >= KB {
        one_decimal(tenths(bytes, KB as nat)) + " KB"@
    } else {
        dec_seq(bytes) + " B"@
    }
}

/// Appends `bytes / unit` with one decimal.
fn push_one_decimal(out: &mut String, bytes: u64, unit: u64)
    requires
        unit == KB || unit == MB || unit == GB,
    ensures
        final(out)@ == old(out)@ + one_decimal(tenths(bytes as nat, unit as nat)),
{
    let n: u128 = bytes as u128 * 10;
    let q: u128 = n / unit as u128;
    let r: u128 = n % unit as u128;
    let t: u128 = if 2 * r > unit as u128 || (2 * r == unit as u128 && q % 2 == 1) {
        q + 1
    } else {
        q
    };
    assert(t == tenths(bytes as nat, unit as nat));
    assert(t <= 0xFFFF_FFFF_FFFF_FFFF) by (nonlinear_arith)
        requires
            t <= q + 1,
            q == n / unit as u128,
            n == bytes * 10,
            unit >= 1024,
            bytes <= 0xFFFF_FFFF_FFFF_FFFF,
    ;
    let t64 = t as u64;
    push_decimal(out, t64 / 10);
    out.append(".");
    let mut d = String::new();
    push_decimal(&mut d, t64 % 10);
    assert(dec_seq((t64 % 10) as nat) == seq![digit_char((t64 % 10) as nat)]);
    out.append(d.as_str());
    proof {
        reveal_strlit(".");
    }
    assert(final(out)@ =~= old(out)@ + one_decimal(tenths(bytes as nat, unit as nat))) by {
        reveal_strlit(".");
    }
}

/// Friendly display of a file size.
pub fn human_size(bytes: u64) -> (r: String)
    ensures
        r@ == human_size_seq(bytes as nat),
{
    let mut s = String::new();
    if bytes >= GB {
        push_one_decimal(&mut s, bytes, GB);
        s.append(" GB");
    } else if bytes >= MB {
        push_one_decimal(&mut s, bytes, MB);
        s.append(" MB");
    } else if bytes >= KB {
        push_one_decimal(&mut s, bytes, KB);
        s.append(" KB");
    } else {
        push_decimal(&mut s, bytes);
        s.append(" B");
    }
    assert(s@ =~= human_size_seq(bytes as nat));
    s
}

/// The file extensions the tree lists, in a fixed order.
pub open spec fn listed_extensions() -> Seq<Seq<char>> {
    seq!["shp"@, "geojson"@, "json"@, "fgb"@, "parquet"@, "dxf"@, "dwg"@, "kml"@, "kmz"@, "csv"@, "tsv"@, "xlsx"@, "kdb"@, "kyu"@]
}

/// A file is listed exactly when its name has a `.` and the text after the
/// last `.`, lowercased, is one of: shp, geojson, json, fgb, parquet, dxf,
/// dwg, kml, kmz, csv, tsv, xlsx, kdb, kyu.
pub proof fn law_data_file_names(name: Seq<char>)
    ensures
        is_data_file_name(name) <==> has_char(name, '.') && listed_extensions().contains(
            ascii_lower_seq(after_last_seq(name, '.')),
        ),
{
    assert(DATA_EXTENSIONS@[0]@ == "shp"@);
    assert(DATA_EXTENSIONS@[1]@ == "geojson"@);
    assert(DATA_EXTENSIONS@[2]@ == "json"@);
    assert(DATA_EXTENSIONS@[3]@ == "fgb"@);
    assert(DATA_EXTENSIONS@[4]@ == "parquet"@);
    assert(DATA_EXTENSIONS@[5]@ == "dxf"@);
    assert(DATA_EXTENSIONS@[6]@ == "dwg"@);
    assert(DATA_EXTENSIONS@[7]@ == "kml"@);
    assert(DATA_EXTENSIONS@[8]@ == "kmz"@);
    assert(DATA_EXTENSIONS@[9]@ == "csv"@);
    assert(DATA_EXTENSIONS@[10]@ == "tsv"@);
    assert(DATA_EXTENSIONS@[11]@ == "xlsx"@);
    assert(DATA_EXTENSIONS@[12]@ == "kdb"@);
    assert(DATA_EXTENSIONS@[13]@ == "kyu"@);
    assert(DATA_EXTENSIONS@.len() == 14);
    let x = ascii_lower_seq(after_last_seq(name, '.'));
    let l = listed_extensions();
    assert forall|k: int| 0 <= k < 14 implies #[trigger] DATA_EXTENSIONS@[k]@ == l[k] by {}
    if listed_extensions().contains(x) {
        let k = choose|k: int| 0 <= k < l.len() && l[k] == x;
        assert(DATA_EXTENSIONS@[k]@ == x);
    }
    if is_data_file_name(name) {
        let k = choose|k: int|
            0 <= k < 14 && ascii_lower_seq(after_last_seq(name, '.')) == (
            #[trigger] DATA_EXTENSIONS@[k])@;
        assert(l[k] == x);
    }
}

/// Inserting keeps every element and adds the new one.
proof fn lemma_insert_by_key_contains(s: Seq<Keyed>, x: Keyed)
    ensures
        insert_by_key(s, x).contains(x),
        forall|y: Keyed| s.contains(y) ==> insert_by_key(s, x).contains(y),
    decreases s.len(),
{
    if s.len() == 0 {
        assert(seq![x][0] == x);
    } else if lex_lt(x.1, s.last().1) {
        let p = s.drop_last();
        lemma_insert_by_key_contains(p, x);
        let r = insert_by_key(p, x).push(s.last());
        let q = insert_by_key(p, x);
        let k0 = choose|k: int| 0 <= k < q.len() && q[k] == x;
        assert(r[k0] == x);
        assert forall|y: Keyed| s.contains(y) implies r.contains(y) by {
            let k = choose|k: int| 0 <= k < s.len() && s[k] == y;
            if k == s.len() - 1 {
                assert(r[r.len() - 1] == y);
            } else {
                assert(p[k] == y);
                assert(p.contains(y));
                let j = choose|j: int| 0 <= j < q.len() && q[j] == y;
                assert(r[j] == y);
            }
        }
    } else {
        let r = s.push(x);
        assert(r[r.len() - 1] == x);
        assert forall|y: Keyed| s.contains(y) implies r.contains(y) by {
            let k = choose|k: int| 0 <= k < s.len() && s[k] == y;
            assert(r[k] == y);
        }
    }
}

/// Sorting keeps every element.
proof fn lemma_sorted_by_key_keeps(s: Seq<Keyed>)
    ensures
        forall|y: Keyed| s.contains(y) ==> sorted_by_key(s).contains(y),
    decreases s.len(),
{
    if s.len() > 0 {
        let p = s.drop_last();
        lemma_sorted_by_key_keeps(p);
        lemma_insert_by_key_contains(sorted_by_key(p), s.last());
        assert forall|y: Keyed| s.contains(y) implies sorted_by_key(s).contains(y) by {
            let k = choose|k: int| 0 <= k < s.len() && s[k] == y;
            if k < s.len() - 1 {
                assert(p[k] == y);
                assert(p.contains(y));
            }
        }
    }
}

/// A visible data file among the entries is among the file nodes.
proof fn lemma_file_nodes_has(es: Seq<DirEntryInfo>, i: int)
    requires
        0 <= i < es.len(),
        !is_hidden_name(es[i].name@),
        !es[i].is_dir,
        is_data_file_name(es[i].name@),
    ensures
        file_nodes(es).contains(file_node_of(es[i])),
    decreases es.len(),
{
    let p = es.drop_last();
    if i == es.len() - 1 {
        let r = file_nodes(es);
        assert(r[r.len() - 1] == file_node_of(es[i]));
    } else {
        assert(p[i] == es[i]);
        lemma_file_nodes_has(p, i);
        let q = file_nodes(p);
        let k = choose|k: int| 0 <= k < q.len() && q[k] == file_node_of(es[i]);
        if !is_hidden_name(es.last().name@) && !es.last().is_dir && is_data_file_name(
            es.last().name@,
        ) {
            assert(file_nodes(es)[k] == q[k]);
        }
    }
}

/// Every visible file of the directory whose extension is one of the listed
/// ones (see [`law_data_file_names`]) is among the children, with its name,
/// path and size.
pub proof fn law_data_files_listed(entries: Seq<DirEntryInfo>, i: int)
    requires
        0 <= i < entries.len(),
        !is_hidden_name(entries[i].name@),
        !entries[i].is_dir,
        has_char(entries[i].name@, '.'),
        listed_extensions().contains(ascii_lower_seq(after_last_seq(entries[i].name@, '.'))),
    ensures
        (firsts(sorted_by_key(keyed(dir_nodes(entries)))) + firsts(
            sorted_by_key(keyed(file_nodes(entries))),
        )).contains(file_node_of(entries[i])),
{
    law_data_file_names(entries[i].name@);
    lemma_file_nodes_has(entries, i);
    let n = file_node_of(entries[i]);
    let fnodes = file_nodes(entries);
    let k = choose|k: int| 0 <= k < fnodes.len() && fnodes[k] == n;
    let kd = keyed(fnodes);
    assert(kd[k] == (n, lowercase_of(n.name@)));
    assert(kd.contains(kd[k]));
    lemma_sorted_by_key_keeps(kd);
    let sd = sorted_by_key(kd);
    let j = choose|j: int| 0 <= j < sd.len() && sd[j] == kd[k];
    let f = firsts(sd);
    assert(f[j] == n);
    let d = firsts(sorted_by_key(keyed(dir_nodes(entries))));
    assert((d + f)[d.len() + j] == n);
}

} // verus!
