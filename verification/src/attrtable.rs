//! The attribute table's logic: property cells and their text, the field
//! list, the row filter, field type inference, the order of the shown rows,
//! and the panel's state (current layer, sort cycle, dialogs).

use vstd::prelude::*;

use crate::text::{
    contains, contains_seq, lowercase_of, str_eq, string_views, to_lowercase, trim, trim_seq,
};

verus! {

/// A property value as the table shows and classifies it.
pub enum Cell {
    /// JSON `null`.
    Null,
    /// A boolean.
    Bool(bool),
    /// A number, with its JSON text.
    Number(String),
    /// A string.
    Text(String),
    /// An array or object, with its JSON text.
    Other(String),
}

/// The shown text of a cell: nothing for a missing or null value, `true` or
/// `false`, the number's or the structure's JSON text, the string itself.
pub open spec fn cell_text_seq(c: Option<Cell>) -> Seq<char> {
    match c {
        None => seq![],
        Some(Cell::Null) => seq![],
        Some(Cell::Bool(b)) => if b {
            "true"@
        } else {
            "false"@
        },
        Some(Cell::Number(t)) => t@,
        Some(Cell::Text(s)) => s@,
        Some(Cell::Other(t)) => t@,
    }
}

/// The shown text of a cell.
pub fn cell_text(v: Option<&Cell>) -> (r: String)
    ensures
        r@ == cell_text_seq(match v {
            Some(c) => Some(*c),
            None => None,
        }),
{
    match v {
        None => String::new(),
        Some(Cell::Null) => String::new(),
        Some(Cell::Bool(b)) => if *b {
            String::from_str("true")
        } else {
            String::from_str("false")
        },
        Some(Cell::Number(t)) => t.clone(),
        Some(Cell::Text(s)) => s.clone(),
        Some(Cell::Other(t)) => t.clone(),
    }
}

/// The keys of a feature's properties (none when it has none).
pub open spec fn row_keys(p: Option<Vec<(String, Cell)>>) -> Seq<Seq<char>> {
    match p {
        None => seq![],
        Some(v) => v@.map_values(|e: (String, Cell)| e.0@),
    }
}

/// `acc` extended by the keys not yet in it, in order.
pub open spec fn add_keys(acc: Seq<Seq<char>>, keys: Seq<Seq<char>>) -> Seq<Seq<char>>
    decreases keys.len(),
{
    if keys.len() == 0 {
        acc
    } else {
        let a = add_keys(acc, keys.drop_last());
        if a.contains(keys.last()) {
            a
        } else {
            a.push(keys.last())
        }
    }
}

/// The field names of the features, in order of first appearance, each once.
pub open spec fn names_of(rows: Seq<Option<Vec<(String, Cell)>>>) -> Seq<Seq<char>>
    decreases rows.len(),
{
    if rows.len() == 0 {
        seq![]
    } else {
        add_keys(names_of(rows.drop_last()), row_keys(rows.last()))
    }
}

/// Whether `v` holds a string equal to `k`.
fn holds(v: &Vec<String>, k: &str) -> (r: bool)
    ensures
        r == string_views(v@).contains(k@),
{
    let n = v.len();
    let mut i: usize = 0;
    while i < n
        invariant
            n == v@.len(),
            i <= n,
            forall|j: int| 0 <= j < i ==> v@[j]@ != k@,
        decreases n - i,
    {
        if str_eq(v[i].as_str(), k) {
            assert(string_views(v@)[i as int] == k@);
            return true;
        }
        i = i + 1;
    }
    proof {
        if string_views(v@).contains(k@) {
            let j = choose|j: int|
                0 <= j < v@.len() && #[trigger] string_views(v@)[j] == k@;
            assert(v@[j]@ == k@);
        }
    }
    false
}

/// The field names of the features: first appearance order, no repeats.
pub fn field_names(rows: &Vec<Option<Vec<(String, Cell)>>>) -> (r: Vec<String>)
    ensures
        string_views(r@) == names_of(rows@),
{
    let mut out: Vec<String> = Vec::new();
    let n = rows.len();
    let mut i: usize = 0;
    assert(rows@.take(0) =~= Seq::<Option<Vec<(String, Cell)>>>::empty());
    while i < n
        invariant
            n == rows@.len(),
            i <= n,
            string_views(out@) == names_of(rows@.take(i as int)),
        decreases n - i,
    {
        assert(rows@.take(i + 1).drop_last() =~= rows@.take(i as int));
        assert(rows@.take(i + 1).last() == rows@[i as int]);
        let ghost acc0 = string_views(out@);
        match &rows[i] {
            None => {
                assert(add_keys(acc0, row_keys(rows@[i as int])) == acc0);
            },
            Some(p) => {
                let m = p.len();
                let ghost ks = row_keys(rows@[i as int]);
                assert(ks =~= p@.map_values(|e: (String, Cell)| e.0@));
                let mut j: usize = 0;
                assert(ks.take(0) =~= Seq::<Seq<char>>::empty());
                while j < m
                    invariant
                        m == p@.len(),
                        ks == p@.map_values(|e: (String, Cell)| e.0@),
                        j <= m,
                        string_views(out@) == add_keys(acc0, ks.take(j as int)),
                    decreases m - j,
                {
                    assert(ks.take(j + 1).drop_last() =~= ks.take(j as int));
                    assert(ks.take(j + 1).last() == p@[j as int].0@);
                    let k = p[j].0.as_str();
                    if !holds(&out, k) {
                        let ghost before = out@;
                        out.push(String::from_str(k));
                        assert(string_views(out@) =~= string_views(before).push(k@));
                    }
                    j = j + 1;
                }
                assert(ks.take(m as int) =~= ks);
            },
        }
        i = i + 1;
    }
    assert(rows@.take(n as int) =~= rows@);
    out
}

/// Some property of the row, shown and lowercased, contains `filter_lc`.
pub open spec fn row_has(p: Vec<(String, Cell)>, filter_lc: Seq<char>) -> bool {
    exists|i: int|
        0 <= i < p@.len() && contains_seq(
            lowercase_of(cell_text_seq(Some(#[trigger] p@[i].1))),
            filter_lc,
        )
}

/// Some text of `texts` contains `filter_lc`.
pub open spec fn any_contains(texts: Seq<Seq<char>>, filter_lc: Seq<char>) -> bool {
    exists|i: int| 0 <= i < texts.len() && contains_seq(#[trigger] texts[i], filter_lc)
}

/// The row filter over a row's shown values, already lowercased: an empty
/// filter keeps the row; otherwise the row is kept when one of the texts
/// contains the filter.
pub fn texts_match(lowered: &Vec<String>, filter_lc: &str) -> (r: bool)
    ensures
        r == (filter_lc@.len() == 0 || any_contains(string_views(lowered@), filter_lc@)),
{
    if filter_lc.unicode_len() == 0 {
        return true;
    }
    let n = lowered.len();
    let mut i: usize = 0;
    while i < n
        invariant
            n == lowered@.len(),
            i <= n,
            forall|j: int|
                0 <= j < i ==> !contains_seq(#[trigger] string_views(lowered@)[j], filter_lc@),
        decreases n - i,
    {
        if contains(lowered[i].as_str(), filter_lc) {
            assert(contains_seq(string_views(lowered@)[i as int], filter_lc@));
            return true;
        }
        i = i + 1;
    }
    false
}

/// The row filter: an empty filter keeps every row; otherwise a row is kept
/// when some property, shown and lowercased, contains the (lowercased)
/// filter. A feature without properties is dropped.
pub fn row_matches(props: Option<&Vec<(String, Cell)>>, filter_lc: &str) -> (r: bool)
    ensures
        r == (filter_lc@.len() == 0 || match props {
            Some(p) => row_has(*p, filter_lc@),
            None => false,
        }),
{
    let p = match props {
        Some(p) => p,
        None => return filter_lc.unicode_len() == 0,
    };
    let n = p.len();
    let mut lowered: Vec<String> = Vec::new();
    let mut i: usize = 0;
    while i < n
        invariant
            n == p@.len(),
            i <= n,
            lowered@.len() == i,
            forall|j: int|
                0 <= j < i ==> #[trigger] string_views(lowered@)[j] == lowercase_of(
                    cell_text_seq(Some(p@[j].1)),
                ),
        decreases n - i,
    {
        let t = cell_text(Some(&p[i].1));
        let lc = to_lowercase(t.as_str());
        let ghost before = lowered@;
        lowered.push(lc);
        assert(string_views(lowered@) =~= string_views(before).push(lowercase_of(
            cell_text_seq(Some(p@[i as int].1)),
        )));
        i = i + 1;
    }
    let r = texts_match(&lowered, filter_lc);
    proof {
        let ts = string_views(lowered@);
        if any_contains(ts, filter_lc@) {
            let k = choose|k: int| 0 <= k < ts.len() && contains_seq(#[trigger] ts[k], filter_lc@);
            assert(contains_seq(lowercase_of(cell_text_seq(Some(p@[k].1))), filter_lc@));
        }
        if row_has(*p, filter_lc@) {
            let k = choose|k: int|
                0 <= k < p@.len() && contains_seq(
                    lowercase_of(cell_text_seq(Some(#[trigger] p@[k].1))),
                    filter_lc@,
                );
            assert(contains_seq(ts[k], filter_lc@));
        }
    }
    r
}

/// The type name of a (non-null) value.
pub open spec fn kind_name(c: Cell) -> Seq<char> {
    match c {
        Cell::Number(_) => "数值"@,
        Cell::Text(_) => "文本"@,
        Cell::Bool(_) => "布尔"@,
        _ => "其他"@,
    }
}

/// The value under the first entry named `name`.
pub open spec fn first_value(s: Seq<(String, Cell)>, name: Seq<char>) -> Option<Cell>
    decreases s.len(),
{
    if s.len() == 0 {
        None
    } else if s[0].0@ == name {
        Some(s[0].1)
    } else {
        first_value(s.drop_first(), name)
    }
}

/// The value of field `name` in a row.
pub open spec fn value_of(p: Option<Vec<(String, Cell)>>, name: Seq<char>) -> Option<Cell> {
    match p {
        None => None,
        Some(v) => first_value(v@, name),
    }
}

/// The type of field `name`: the type of its first non-null value in
/// `rows`, or "未知" when there is none.
pub open spec fn infer_kind(rows: Seq<Option<Vec<(String, Cell)>>>, name: Seq<char>) -> Seq<char>
    decreases rows.len(),
{
    if rows.len() == 0 {
        "未知"@
    } else {
        match value_of(rows[0], name) {
            Some(c) => if c is Null {
                infer_kind(rows.drop_first(), name)
            } else {
                kind_name(c)
            },
            None => infer_kind(rows.drop_first(), name),
        }
    }
}

/// How many features type inference looks at.
pub open spec fn scan_limit(n: nat) -> int {
    if n > 200 {
        200
    } else {
        n as int
    }
}

/// The type name of a value.
fn kind_of(c: &Cell) -> (r: &'static str)
    requires
        !(*c is Null),
    ensures
        r@ == kind_name(*c),
{
    match c {
        Cell::Number(_) => "数值",
        Cell::Text(_) => "文本",
        Cell::Bool(_) => "布尔",
        _ => "其他",
    }
}

/// The value of field `name` in a row.
fn lookup<'a>(p: &'a Vec<(String, Cell)>, name: &str) -> (r: Option<&'a Cell>)
    ensures
        match r {
            Some(c) => value_of(Some(*p), name@) == Some(*c),
            None => value_of(Some(*p), name@) is None,
        },
{
    let n = p.len();
    let mut i: usize = 0;
    assert(p@.skip(0) =~= p@);
    while i < n
        invariant
            n == p@.len(),
            i <= n,
            first_value(p@, name@) == first_value(p@.skip(i as int), name@),
        decreases n - i,
    {
        assert(p@.skip(i as int)[0] == p@[i as int]);
        assert(p@.skip(i as int).drop_first() =~= p@.skip(i + 1));
        if str_eq(p[i].0.as_str(), name) {
            return Some(&p[i].1);
        }
        i = i + 1;
    }
    assert(p@.skip(n as int) =~= Seq::<(String, Cell)>::empty());
    None
}

/// The type of field `name` from the first 200 features.
fn field_kind(rows: &Vec<Option<Vec<(String, Cell)>>>, name: &str) -> (r: &'static str)
    ensures
        r@ == infer_kind(rows@.take(scan_limit(rows@.len())), name@),
{
    let lim: usize = if rows.len() > 200 {
        200
    } else {
        rows.len()
    };
    let ghost s = rows@.take(lim as int);
    let mut i: usize = 0;
    assert(s.skip(0) =~= s);
    while i < lim
        invariant
            lim <= rows@.len(),
            lim == scan_limit(rows@.len()),
            s == rows@.take(lim as int),
            i <= lim,
            infer_kind(s, name@) == infer_kind(s.skip(i as int), name@),
        decreases lim - i,
    {
        assert(s.skip(i as int)[0] == rows@[i as int]);
        assert(s.skip(i as int).drop_first() =~= s.skip(i + 1));
        if let Some(p) = &rows[i] {
            if let Some(c) = lookup(p, name) {
                if !matches!(c, Cell::Null) {
                    return kind_of(c);
                }
            }
        }
        i = i + 1;
    }
    assert(s.skip(lim as int) =~= Seq::<Option<Vec<(String, Cell)>>>::empty());
    "未知"
}

/// Each field with its type, inferred from the first 200 features: the
/// type of the first non-null value ("数值", "文本", "布尔", "其他"), else
/// "未知".
pub fn infer_field_types(rows: &Vec<Option<Vec<(String, Cell)>>>) -> (r: Vec<(String, String)>)
    ensures
        r@.len() == names_of(rows@).len(),
        forall|i: int|
            0 <= i < r@.len() ==> (#[trigger] r@[i]).0@ == names_of(rows@)[i] && r@[i].1@
                == infer_kind(rows@.take(scan_limit(rows@.len())), names_of(rows@)[i]),
{
    let names = field_names(rows);
    let ghost nv = string_views(names@);
    let n = names.len();
    let mut out: Vec<(String, String)> = Vec::new();
    let mut i: usize = 0;
    while i < n
        invariant
            n == names@.len(),
            nv == string_views(names@),
            nv == names_of(rows@),
            i <= n,
            out@.len() == i,
            forall|k: int|
                0 <= k < i ==> (#[trigger] out@[k]).0@ == nv[k] && out@[k].1@ == infer_kind(
                    rows@.take(scan_limit(rows@.len())),
                    nv[k],
                ),
        decreases n - i,
    {
        assert(nv[i as int] == names@[i as int]@);
        let kind = field_kind(rows, names[i].as_str());
        out.push((names[i].clone(), String::from_str(kind)));
        i = i + 1;
    }
    out
}

/// The entries of `order` that are row indices whose row is kept, in order.
pub open spec fn keep_matching(order: Seq<usize>, keep: Seq<bool>) -> Seq<usize>
    decreases order.len(),
{
    if order.len() == 0 {
        seq![]
    } else {
        let p = keep_matching(order.drop_last(), keep);
        let x = order.last();
        if (x as int) < keep.len() && keep[x as int] {
            p.push(x)
        } else {
            p
        }
    }
}

/// The rows shown: the kept row indices, in row order, or in the given sort
/// order when there is one.
pub fn visible_rows(keep: &Vec<bool>, order: Option<&Vec<usize>>) -> (r: Vec<usize>)
    ensures
        r@ == keep_matching(
            match order {
                Some(o) => o@,
                None => Seq::new(keep@.len(), |i: int| i as usize),
            },
            keep@,
        ),
{
    let m = keep.len();
    let mut all: Vec<usize> = Vec::new();
    let mut i: usize = 0;
    while i < m
        invariant
            m == keep@.len(),
            i <= m,
            all@ == Seq::new(i as nat, |k: int| k as usize),
        decreases m - i,
    {
        all.push(i);
        assert(all@ =~= Seq::new((i + 1) as nat, |k: int| k as usize));
        i = i + 1;
    }
    let src: &Vec<usize> = match order {
        Some(o) => o,
        None => &all,
    };
    let n = src.len();
    let mut out: Vec<usize> = Vec::new();
    let mut j: usize = 0;
    assert(src@.take(0) =~= Seq::<usize>::empty());
    while j < n
        invariant
            n == src@.len(),
            m == keep@.len(),
            j <= n,
            out@ == keep_matching(src@.take(j as int), keep@),
        decreases n - j,
    {
        assert(src@.take(j + 1).drop_last() =~= src@.take(j as int));
        assert(src@.take(j + 1).last() == src@[j as int]);
        let x = src[j];
        if x < m && keep[x] {
            out.push(x);
        }
        j = j + 1;
    }
    assert(src@.take(n as int) =~= src@);
    out
}

// ===== the panel =====

/// The add-field dialog.
pub struct AddFieldState {
    /// Field name.
    pub name: String,
    /// Type: "文本", "数值" or "布尔".
    pub kind: String,
    /// Default value (empty: null).
    pub default: String,
    /// Validation error shown in the dialog.
    pub err: Option<String>,
}

/// A cell being edited.
pub struct CellEditState {
    /// The feature's index.
    pub feature: usize,
    /// The field.
    pub field: String,
    /// The text being edited.
    pub text: String,
    /// Whether it has been focused yet.
    pub focused: bool,
}

/// The field calculator dialog.
pub struct CalcState {
    /// Target field.
    pub target: String,
    /// Expression.
    pub expr: String,
    /// Preview of the first rows, or an error.
    pub preview: Option<Result<Vec<String>, String>>,
}

/// A field operation on a layer.
pub enum FieldOp {
    /// Add a field, with its default value (`None`: null).
    Add { name: String, default: Option<Cell> },
    /// Delete a field.
    Delete { name: String },
    /// Rename a field.
    Rename { old: String, new: String },
    /// Compute a field (created when missing, overwritten otherwise).
    Calc { target: String, expr: String },
}

/// What the panel asks of the application.
pub enum AttrAction {
    /// Apply a field operation to a layer.
    Apply { layer: String, op: FieldOp },
    /// A cell edit committed: the text, typed by the application.
    EditCell { layer: String, feature: usize, field: String, text: String },
}

/// What reading a default value as a floating-point number gave.
#[derive(Clone, Copy, PartialEq, Eq, Debug, Structural)]
pub enum NumberRead {
    /// A finite number.
    Finite,
    /// A number that JSON cannot hold (infinite or NaN).
    NotFinite,
    /// Not a number.
    Invalid,
}

/// The error that a default value gives in the add-field dialog, if any.
pub open spec fn default_error(kind: Seq<char>, default: Seq<char>, number: NumberRead) -> Option<
    Seq<char>,
> {
    let t = trim_seq(default);
    if t.len() == 0 {
        None
    } else if kind == "数值"@ {
        if number == NumberRead::Invalid {
            Some("默认值须为数值: "@ + default)
        } else {
            None
        }
    } else if kind == "布尔"@ {
        if t == "true"@ || t == "是"@ || t == "false"@ || t == "否"@ {
            None
        } else {
            Some("默认值须为 是/否: "@ + t)
        }
    } else {
        None
    }
}

/// The error that confirming the add-field dialog gives, if any: that of
/// the default value, else that of an empty name.
pub open spec fn add_field_error(
    name: Seq<char>,
    kind: Seq<char>,
    default: Seq<char>,
    number: NumberRead,
) -> Option<Seq<char>> {
    match default_error(kind, default, number) {
        Some(e) => Some(e),
        None => if trim_seq(name).len() == 0 {
            Some("字段名不能为空"@)
        } else {
            None
        },
    }
}

/// `c` is the default value that the dialog gives (when it gives no error):
/// null for an empty entry or a number JSON cannot hold, the number as
/// typed, a boolean (`true`/`是` or `false`/`否`), or the text as entered.
pub open spec fn is_default_value(
    c: Option<Cell>,
    kind: Seq<char>,
    default: Seq<char>,
    number: NumberRead,
) -> bool {
    let t = trim_seq(default);
    if t.len() == 0 {
        c is None
    } else if kind == "数值"@ {
        if number == NumberRead::Finite {
            c matches Some(Cell::Number(x)) && x@ == t
        } else {
            c is None
        }
    } else if kind == "布尔"@ {
        c == Some(Cell::Bool(t == "true"@ || t == "是"@))
    } else {
        c matches Some(Cell::Text(x)) && x@ == default
    }
}

/// Reads the default value of the add-field dialog.
fn read_default(kind: &str, default: &str, number: NumberRead) -> (r: Result<Option<Cell>, String>)
    ensures
        match r {
            Ok(c) => default_error(kind@, default@, number) is None && is_default_value(
                c,
                kind@,
                default@,
                number,
            ),
            Err(e) => default_error(kind@, default@, number) == Some(e@),
        },
{
    let t = trim(default);
    proof {
        reveal_strlit("数值");
        reveal_strlit("布尔");
        reveal_strlit("true");
        reveal_strlit("false");
        reveal_strlit("是");
        reveal_strlit("否");
    }
    if t.unicode_len() == 0 {
        return Ok(None);
    }
    if str_eq(kind, "数值") {
        match number {
            NumberRead::Finite => Ok(Some(Cell::Number(String::from_str(t)))),
            NumberRead::NotFinite => Ok(None),
            NumberRead::Invalid => {
                let mut e = String::from_str("默认值须为数值: ");
                e.append(default);
                Err(e)
            },
        }
    } else if str_eq(kind, "布尔") {
        if str_eq(t, "true") || str_eq(t, "是") {
            Ok(Some(Cell::Bool(true)))
        } else if str_eq(t, "false") || str_eq(t, "否") {
            Ok(Some(Cell::Bool(false)))
        } else {
            let mut e = String::from_str("默认值须为 是/否: ");
            e.append(t);
            Err(e)
        }
    } else {
        Ok(Some(Cell::Text(String::from_str(default))))
    }
}

/// The attribute table panel.
pub struct AttrTablePanel {
    /// The layer shown.
    pub layer: Option<String>,
    /// The filter text.
    pub filter: String,
    /// Sort field and ascending flag; `None`: row order.
    pub sort: Option<(String, bool)>,
    /// The selected column.
    pub sel_col: Option<String>,
    /// The add-field dialog.
    pub add_dlg: Option<AddFieldState>,
    /// The rename dialog: old name and new name.
    pub rename_dlg: Option<(String, String)>,
    /// The field calculator.
    pub calc_dlg: Option<CalcState>,
    /// The cell being edited.
    pub cell_edit: Option<CellEditState>,
}

impl Default for AttrTablePanel {
    /// No layer, no filter, row order, nothing selected, no dialog.
    fn default() -> (r: Self)
        ensures
            r.layer is None,
            r.filter@.len() == 0,
            r.sort is None,
            r.sel_col is None,
            r.add_dlg is None,
            r.rename_dlg is None,
            r.calc_dlg is None,
            r.cell_edit is None,
    {
        AttrTablePanel {
            layer: None,
            filter: String::new(),
            sort: None,
            sel_col: None,
            add_dlg: None,
            rename_dlg: None,
            calc_dlg: None,
            cell_edit: None,
        }
    }
}

/// The view of an optional string.
pub open spec fn opt_str(o: Option<String>) -> Option<Seq<char>> {
    match o {
        Some(s) => Some(s@),
        None => None,
    }
}

/// The view of a sort state: field name and ascending flag.
pub open spec fn sort_view(sort: Option<(String, bool)>) -> Option<(Seq<char>, bool)> {
    match sort {
        Some((f, a)) => Some((f@, a)),
        None => None,
    }
}

/// The sort after a click on column `name`: row order, then ascending, then
/// descending, then row order again; a click on another column sorts it
/// ascending.
pub open spec fn next_sort(sort: Option<(Seq<char>, bool)>, name: Seq<char>) -> Option<(Seq<char>, bool)> {
    match sort {
        Some((f, true)) => if f == name {
            Some((name, false))
        } else {
            Some((name, true))
        },
        Some((f, false)) => if f == name {
            None
        } else {
            Some((name, true))
        },
        None => Some((name, true)),
    }
}

/// Three clicks on the same column bring its sort back: row order, up,
/// down, row order.
pub proof fn law_header_clicks_cycle(sort: Option<(Seq<char>, bool)>, name: Seq<char>)
    requires
        sort matches Some((f, _)) ==> f == name,
    ensures
        next_sort(next_sort(next_sort(sort, name), name), name) == sort,
{
}

impl AttrTablePanel {
    /// Shows layer `id`; switching to another layer resets the sort and the
    /// selected column.
    pub fn set_layer(&mut self, id: String)
        ensures
            opt_str(final(self).layer) == Some(id@),
            opt_str(old(self).layer) == Some(id@) ==> *final(self) == *old(self),
            opt_str(old(self).layer) != Some(id@) ==> *final(self) == (AttrTablePanel {
                layer: final(self).layer,
                sort: None,
                sel_col: None,
                ..*old(self)
            }),
    {
        let same = match &self.layer {
            Some(l) => str_eq(l.as_str(), id.as_str()),
            None => false,
        };
        if !same {
            self.layer = Some(id);
            self.sort = None;
            self.sel_col = None;
        }
    }

    /// The layer shown.
    pub fn layer(&self) -> (r: Option<&str>)
        ensures
            match r {
                Some(t) => opt_str(self.layer) == Some(t@),
                None => self.layer is None,
            },
    {
        match &self.layer {
            Some(l) => Some(l.as_str()),
            None => None,
        }
    }

    /// Opens the field calculator with an example and its preview.
    pub fn demo_open_calc(&mut self, preview: Result<Vec<String>, String>)
        ensures
            final(self).calc_dlg matches Some(c) && c.target@ == "楼高米"@ && c.expr@
                == "height * 3.5"@ && c.preview == Some(preview),
            final(self).layer == old(self).layer,
            final(self).sort == old(self).sort,
    {
        self.calc_dlg = Some(
            CalcState {
                target: String::from_str("楼高米"),
                expr: String::from_str("height * 3.5"),
                preview: Some(preview),
            },
        );
    }

    /// The filter as rows are matched against it: trimmed and lowercased.
    pub fn filter_key(&self) -> (r: String)
        ensures
            r@ == lowercase_of(trim_seq(self.filter@)),
    {
        to_lowercase(trim(self.filter.as_str()))
    }

    /// "Add field" in the toolbar (enabled with data): opens an empty dialog.
    pub fn open_add_field(&mut self, has_data: bool)
        ensures
            has_data ==> (final(self).add_dlg matches Some(st) && st.name@.len() == 0
                && st.kind@.len() == 0 && st.default@.len() == 0 && st.err is None),
            has_data ==> *final(self) == (AttrTablePanel { add_dlg: final(self).add_dlg, ..*old(self) }),
            !has_data ==> *final(self) == *old(self),
    {
        if has_data {
            self.add_dlg = Some(
                AddFieldState {
                    name: String::new(),
                    kind: String::new(),
                    default: String::new(),
                    err: None,
                },
            );
        }
    }

    /// "Field calculator" in the toolbar (enabled with data): opens an empty
    /// calculator.
    pub fn open_calc(&mut self, has_data: bool)
        ensures
            has_data ==> (final(self).calc_dlg matches Some(st) && st.target@.len() == 0
                && st.expr@.len() == 0 && st.preview is None),
            has_data ==> *final(self) == (AttrTablePanel { calc_dlg: final(self).calc_dlg, ..*old(self) }),
            !has_data ==> *final(self) == *old(self),
    {
        if has_data {
            self.calc_dlg = Some(
                CalcState { target: String::new(), expr: String::new(), preview: None },
            );
        }
    }

    /// "Rename field" on column `name`: opens the rename dialog with an
    /// empty new name.
    pub fn open_rename(&mut self, name: String)
        ensures
            final(self).rename_dlg matches Some((o, n)) && o == name && n@.len() == 0,
            *final(self) == (AttrTablePanel { rename_dlg: final(self).rename_dlg, ..*old(self) }),
    {
        self.rename_dlg = Some((name, String::new()));
    }

    /// "Delete field" on column `name`: deletes it from the layer shown, if
    /// any.
    pub fn delete_field(&self, name: String) -> (r: Option<AttrAction>)
        ensures
            match self.layer {
                Some(l) => r matches Some(AttrAction::Apply { layer, op: FieldOp::Delete { name: n } })
                    && layer@ == l@ && n == name,
                None => r is None,
            },
    {
        match &self.layer {
            Some(l) => Some(AttrAction::Apply { layer: l.clone(), op: FieldOp::Delete { name } }),
            None => None,
        }
    }

    /// "Delete field" in the toolbar: enabled with data and a selected
    /// column, it deletes that column.
    pub fn toolbar_delete(&self, has_data: bool) -> (r: Option<AttrAction>)
        ensures
            match (self.layer, self.sel_col) {
                (Some(l), Some(c)) => if has_data {
                    r matches Some(AttrAction::Apply { layer, op: FieldOp::Delete { name } })
                        && layer@ == l@ && name@ == c@
                } else {
                    r is None
                },
                _ => r is None,
            },
    {
        if !has_data {
            return None;
        }
        match &self.sel_col {
            Some(c) => self.delete_field(c.clone()),
            None => None,
        }
    }

    /// "Rename field" in the toolbar: enabled with data and a selected
    /// column, it opens the rename dialog for that column.
    pub fn toolbar_rename(&mut self, has_data: bool)
        ensures
            match old(self).sel_col {
                Some(c) => if has_data {
                    final(self).rename_dlg matches Some((o, n)) && o@ == c@ && n@.len() == 0
                } else {
                    final(self).rename_dlg == old(self).rename_dlg
                },
                None => final(self).rename_dlg == old(self).rename_dlg,
            },
            *final(self) == (AttrTablePanel { rename_dlg: final(self).rename_dlg, ..*old(self) }),
    {
        if has_data {
            match &self.sel_col {
                Some(c) => {
                    let c = c.clone();
                    self.open_rename(c);
                },
                None => {},
            }
        }
    }

    /// Confirms the add-field dialog, with what reading its trimmed default
    /// as a number gave. Without a layer or an open dialog nothing happens.
    /// On an error the dialog stays open with the error shown and its entries
    /// kept; otherwise it closes and the field is added under its trimmed
    /// name.
    pub fn confirm_add_field(&mut self, number: NumberRead) -> (r: Option<AttrAction>)
        ensures
            old(self).layer is None || old(self).add_dlg is None ==> r is None && *final(self)
                == *old(self),
            match (old(self).layer, old(self).add_dlg) {
                (Some(l), Some(st)) => {
                    &&& *final(self) == (AttrTablePanel { add_dlg: final(self).add_dlg, ..*old(self) })
                    &&& match add_field_error(st.name@, st.kind@, st.default@, number) {
                        Some(e) => {
                            &&& r is None
                            &&& final(self).add_dlg matches Some(s2) && s2.name == st.name && s2.kind
                                == st.kind && s2.default == st.default && (s2.err matches Some(m)
                                && m@ == e)
                        },
                        None => {
                            &&& final(self).add_dlg is None
                            &&& r matches Some(
                                AttrAction::Apply { layer, op: FieldOp::Add { name, default } },
                            ) && layer@ == l@ && name@ == trim_seq(st.name@) && is_default_value(
                                default,
                                st.kind@,
                                st.default@,
                                number,
                            )
                        },
                    }
                },
                _ => true,
            },
    {
        let layer = match &self.layer {
            Some(l) => l.clone(),
            None => return None,
        };
        let st = match self.add_dlg.take() {
            Some(st) => st,
            None => return None,
        };
        let name = String::from_str(trim(st.name.as_str()));
        let read = read_default(st.kind.as_str(), st.default.as_str(), number);
        let err = match &read {
            Err(e) => Some(e.clone()),
            Ok(_) => if name.unicode_len() == 0 {
                Some(String::from_str("字段名不能为空"))
            } else {
                None
            },
        };
        match err {
            Some(e) => {
                self.add_dlg = Some(AddFieldState { name: st.name, kind: st.kind, default: st.default, err: Some(e) });
                None
            },
            None => match read {
                Ok(default) => Some(AttrAction::Apply { layer, op: FieldOp::Add { name, default } }),
                Err(_) => None,
            },
        }
    }

    /// Confirms the rename dialog: the dialog closes, and a non-empty trimmed
    /// new name renames the field. Without a layer or an open dialog nothing
    /// happens.
    pub fn confirm_rename(&mut self) -> (r: Option<AttrAction>)
        ensures
            old(self).layer is None || old(self).rename_dlg is None ==> r is None && *final(self)
                == *old(self),
            match (old(self).layer, old(self).rename_dlg) {
                (Some(l), Some((o, n))) => {
                    &&& *final(self) == (AttrTablePanel { rename_dlg: None, ..*old(self) })
                    &&& if trim_seq(n@).len() == 0 {
                        r is None
                    } else {
                        r matches Some(AttrAction::Apply { layer, op: FieldOp::Rename { old, new } })
                            && layer@ == l@ && old@ == o@ && new@ == trim_seq(n@)
                    }
                },
                _ => true,
            },
    {
        let layer = match &self.layer {
            Some(l) => l.clone(),
            None => return None,
        };
        let (old, new_name) = match self.rename_dlg.take() {
            Some(d) => d,
            None => return None,
        };
        let new = trim(new_name.as_str());
        if new.unicode_len() == 0 {
            None
        } else {
            Some(AttrAction::Apply { layer, op: FieldOp::Rename { old, new: String::from_str(new) } })
        }
    }

    /// "Apply" in the field calculator: with a non-empty trimmed target and a
    /// non-blank expression the calculator closes and the field is computed;
    /// otherwise it stays open and shows why. Without a layer or an open
    /// calculator nothing happens.
    pub fn apply_calc(&mut self) -> (r: Option<AttrAction>)
        ensures
            old(self).layer is None || old(self).calc_dlg is None ==> r is None && *final(self)
                == *old(self),
            match (old(self).layer, old(self).calc_dlg) {
                (Some(l), Some(st)) => {
                    &&& *final(self) == (AttrTablePanel { calc_dlg: final(self).calc_dlg, ..*old(self) })
                    &&& if trim_seq(st.target@).len() != 0 && trim_seq(st.expr@).len() != 0 {
                        &&& final(self).calc_dlg is None
                        &&& r matches Some(
                            AttrAction::Apply { layer, op: FieldOp::Calc { target, expr } },
                        ) && layer@ == l@ && target@ == trim_seq(st.target@) && expr@ == st.expr@
                    } else {
                        &&& r is None
                        &&& final(self).calc_dlg matches Some(s2) && s2.target == st.target && s2.expr
                            == st.expr && (s2.preview matches Some(Err(m)) && m@
                            == "目标字段与表达式均不能为空"@)
                    }
                },
                _ => true,
            },
    {
        let layer = match &self.layer {
            Some(l) => l.clone(),
            None => return None,
        };
        let st = match self.calc_dlg.take() {
            Some(st) => st,
            None => return None,
        };
        let target = trim(st.target.as_str());
        if target.unicode_len() != 0 && trim(st.expr.as_str()).unicode_len() != 0 {
            let target = String::from_str(target);
            Some(AttrAction::Apply { layer, op: FieldOp::Calc { target, expr: st.expr } })
        } else {
            self.calc_dlg = Some(
                CalcState {
                    target: st.target,
                    expr: st.expr,
                    preview: Some(Err(String::from_str("目标字段与表达式均不能为空"))),
                },
            );
            None
        }
    }

    /// A double click on a cell: edits it, its text prefilled.
    pub fn begin_cell_edit(&mut self, feature: usize, field: String, text: String)
        ensures
            final(self).cell_edit matches Some(c) && c.feature == feature && c.field == field
                && c.text == text && !c.focused,
            *final(self) == (AttrTablePanel { cell_edit: final(self).cell_edit, ..*old(self) }),
    {
        self.cell_edit = Some(CellEditState { feature, field, text, focused: false });
    }

    /// Enter in the cell being edited: the edit ends and, with a layer
    /// shown, its text is committed.
    pub fn commit_cell_edit(&mut self) -> (r: Option<AttrAction>)
        ensures
            *final(self) == (AttrTablePanel { cell_edit: None, ..*old(self) }),
            match (old(self).cell_edit, old(self).layer) {
                (Some(c), Some(l)) => r matches Some(
                    AttrAction::EditCell { layer, feature, field, text },
                ) && layer@ == l@ && feature == c.feature && field == c.field && text == c.text,
                _ => r is None,
            },
    {
        let st = match self.cell_edit.take() {
            Some(st) => st,
            None => return None,
        };
        match &self.layer {
            Some(l) => Some(
                AttrAction::EditCell {
                    layer: l.clone(),
                    feature: st.feature,
                    field: st.field,
                    text: st.text,
                },
            ),
            None => None,
        }
    }

    /// A click on the header of column `name`: selects the column and steps
    /// its sort.
    pub fn click_header(&mut self, name: &str)
        ensures
            opt_str(final(self).sel_col) == Some(name@),
            sort_view(final(self).sort) == next_sort(sort_view(old(self).sort), name@),
            *final(self) == (AttrTablePanel {
                sel_col: final(self).sel_col,
                sort: final(self).sort,
                ..*old(self)
            }),
    {
        let next = match &self.sort {
            Some((f, asc)) => {
                if str_eq(f.as_str(), name) {
                    if *asc {
                        Some((String::from_str(name), false))
                    } else {
                        None
                    }
                } else {
                    Some((String::from_str(name), true))
                }
            },
            None => Some((String::from_str(name), true)),
        };
        self.sel_col = Some(String::from_str(name));
        self.sort = next;
    }
}

} // verus!
