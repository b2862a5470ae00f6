//! Modal dialog forms (parameters → validation → execution) and the parsing
//! and validation rules they apply to their text fields.

use vstd::prelude::*;

use crate::text::{after_last, after_last_seq, parse_u32, parse_u32_seq, str_eq, trim, trim_seq};

verus! {

/// Dialog forms; at most one is active at a time.
#[derive(Default)]
pub struct Dialogs {
    /// Attribute query.
    pub query: Option<QueryState>,
    /// Layer export.
    pub export: Option<ExportState>,
    /// Reprojection.
    pub reproject: Option<ReprojectState>,
    /// Buffer.
    pub buffer: Option<BufferState>,
    /// Overlay.
    pub overlay: Option<OverlayState>,
    /// Spatial join.
    pub sjoin: Option<SjoinState>,
    /// Zonal statistics.
    pub zonal: Option<ZonalState>,
    /// Geodesic measurement.
    pub measure: Option<MeasureState>,
    /// Map export.
    pub export_map: Option<ExportMapState>,
    /// Real-estate map output.
    pub estate_map: Option<EstateMapState>,
    /// Skill run.
    pub skill_run: Option<SkillRunState>,
    /// About dialog shown.
    pub about: bool,
}

/// Attribute query form.
#[derive(Default)]
pub struct QueryState {
    /// Layer id.
    pub layer: String,
    /// Filter expression.
    pub expr: String,
}

/// Layer export form.
#[derive(Default)]
pub struct ExportState {
    /// Layer id.
    pub layer: String,
    /// Output path.
    pub out: String,
}

/// Reprojection form.
#[derive(Default)]
pub struct ReprojectState {
    /// Layer id.
    pub layer: String,
    /// Source CRS.
    pub from: String,
    /// Target CRS.
    pub to: String,
}

/// Buffer form.
#[derive(Default)]
pub struct BufferState {
    /// Layer id.
    pub layer: String,
    /// Distance (CRS units).
    pub distance: String,
}

/// Overlay form.
#[derive(Default)]
pub struct OverlayState {
    /// Target layer.
    pub target: String,
    /// Overlay layer.
    pub overlay: String,
    /// Operation.
    pub op: String,
}

/// Spatial join form.
#[derive(Default)]
pub struct SjoinState {
    /// Target layer.
    pub target: String,
    /// Join layer.
    pub join: String,
    /// Predicate.
    pub predicate: String,
}

/// Zonal statistics form.
#[derive(Default)]
pub struct ZonalState {
    /// Zone (polygon) layer.
    pub zones: String,
    /// Value layer.
    pub values: String,
    /// Numeric field.
    pub field: String,
    /// Statistics (comma separated).
    pub stats: String,
}

/// Geodesic measurement form.
#[derive(Default)]
pub struct MeasureState {
    /// Layer id.
    pub layer: String,
    /// `length` or `area`.
    pub kind: String,
}

/// Map export form.
#[derive(Default)]
pub struct ExportMapState {
    /// Output path (.png/.svg).
    pub out: String,
}

/// Skill run form.
#[derive(Default)]
pub struct SkillRunState {
    /// Skill id.
    pub skill_id: String,
    /// Layer id.
    pub layer: String,
}

/// The nine real-estate map kinds, in drop-down order (the first is the default).
pub const ESTATE_MAP_KINDS: [&'static str; 9] = [
    "宗地图(使用权)",
    "所有权宗地图",
    "宗地草图",
    "房产图",
    "宗海界址图",
    "宗海位置图",
    "宗海平面布置图",
    "用岛范围图",
    "设施布置图",
];

/// Real-estate map kind (labels in [`ESTATE_MAP_KINDS`]).
#[derive(Debug, Clone, Copy, PartialEq, Eq, Structural)]
pub enum EstateMapKind {
    /// Parcel map (land use right).
    ParcelUseRight,
    /// Parcel map (land ownership).
    ParcelOwnership,
    /// Parcel sketch.
    ParcelSketch,
    /// House map.
    House,
    /// Sea area boundary map.
    SeaBoundary,
    /// Sea area location map.
    SeaLocation,
    /// Sea area layout map.
    SeaLayout,
    /// Island use range map.
    IslandRange,
    /// Island facility layout map.
    IslandFacility,
}

/// Drop-down position of each kind.
pub open spec fn estate_kind_index(k: EstateMapKind) -> int {
    match k {
        EstateMapKind::ParcelUseRight => 0,
        EstateMapKind::ParcelOwnership => 1,
        EstateMapKind::ParcelSketch => 2,
        EstateMapKind::House => 3,
        EstateMapKind::SeaBoundary => 4,
        EstateMapKind::SeaLocation => 5,
        EstateMapKind::SeaLayout => 6,
        EstateMapKind::IslandRange => 7,
        EstateMapKind::IslandFacility => 8,
    }
}

/// The label of each kind.
pub open spec fn estate_kind_label(k: EstateMapKind) -> Seq<char> {
    ESTATE_MAP_KINDS@[estate_kind_index(k)]@
}

/// The kind at drop-down position `i`.
fn estate_kind_at(i: usize) -> (r: EstateMapKind)
    requires
        i < 9,
    ensures
        estate_kind_index(r) == i,
{
    match i {
        0 => EstateMapKind::ParcelUseRight,
        1 => EstateMapKind::ParcelOwnership,
        2 => EstateMapKind::ParcelSketch,
        3 => EstateMapKind::House,
        4 => EstateMapKind::SeaBoundary,
        5 => EstateMapKind::SeaLocation,
        6 => EstateMapKind::SeaLayout,
        7 => EstateMapKind::IslandRange,
        _ => EstateMapKind::IslandFacility,
    }
}

/// The nine labels are pairwise different.
pub proof fn law_estate_labels_distinct()
    ensures
        forall|i: int, j: int|
            0 <= i < j < 9 ==> (#[trigger] ESTATE_MAP_KINDS@[i])@ != (
            #[trigger] ESTATE_MAP_KINDS@[j])@,
{
    reveal_strlit("宗地图(使用权)");
    reveal_strlit("所有权宗地图");
    reveal_strlit("宗地草图");
    reveal_strlit("房产图");
    reveal_strlit("宗海界址图");
    reveal_strlit("宗海位置图");
    reveal_strlit("宗海平面布置图");
    reveal_strlit("用岛范围图");
    reveal_strlit("设施布置图");
    assert(ESTATE_MAP_KINDS@[0]@.len() == 8);
    assert(ESTATE_MAP_KINDS@[1]@.len() == 6);
    assert(ESTATE_MAP_KINDS@[2]@.len() == 4);
    assert(ESTATE_MAP_KINDS@[3]@.len() == 3);
    assert(ESTATE_MAP_KINDS@[4]@.len() == 5);
    assert(ESTATE_MAP_KINDS@[5]@.len() == 5);
    assert(ESTATE_MAP_KINDS@[6]@.len() == 7);
    assert(ESTATE_MAP_KINDS@[7]@.len() == 5);
    assert(ESTATE_MAP_KINDS@[8]@.len() == 5);
    assert(ESTATE_MAP_KINDS@[4]@[0] == '宗');
    assert(ESTATE_MAP_KINDS@[5]@[0] == '宗');
    assert(ESTATE_MAP_KINDS@[7]@[0] == '用');
    assert(ESTATE_MAP_KINDS@[8]@[0] == '设');
    assert(ESTATE_MAP_KINDS@[4]@[2] == '界');
    assert(ESTATE_MAP_KINDS@[5]@[2] == '位');
}

impl EstateMapKind {
    /// The kind whose label is `label`; `None` for an unknown label.
    pub fn from_label(label: &str) -> (r: Option<Self>)
        ensures
            match r {
                Some(k) => label@ == estate_kind_label(k),
                None => forall|k: EstateMapKind| label@ != #[trigger] estate_kind_label(k),
            },
    {
        let mut i: usize = 0;
        while i < 9
            invariant
                i <= 9,
                forall|j: int| 0 <= j < i ==> label@ != (#[trigger] ESTATE_MAP_KINDS@[j])@,
            decreases 9 - i,
        {
            if str_eq(ESTATE_MAP_KINDS[i], label) {
                return Some(estate_kind_at(i));
            }
            i = i + 1;
        }
        assert forall|k: EstateMapKind| label@ != #[trigger] estate_kind_label(k) by {
            assert(0 <= estate_kind_index(k) < 9);
        }
        None
    }
}

/// Different kinds have different labels, so `from_label` applied to the label
/// of a kind gives back that kind.
pub proof fn law_estate_label_injective(k1: EstateMapKind, k2: EstateMapKind)
    requires
        estate_kind_label(k1) == estate_kind_label(k2),
    ensures
        k1 == k2,
{
    law_estate_labels_distinct();
    let (i, j) = (estate_kind_index(k1), estate_kind_index(k2));
    if i < j {
        assert(ESTATE_MAP_KINDS@[i]@ != ESTATE_MAP_KINDS@[j]@);
    } else if j < i {
        assert(ESTATE_MAP_KINDS@[j]@ != ESTATE_MAP_KINDS@[i]@);
    }
}

/// Real-estate map form (the output path is asked for after confirmation).
pub struct EstateMapState {
    /// Map kind (one of [`ESTATE_MAP_KINDS`]).
    pub kind: String,
    /// Parcel / sea area / island code (may be empty).
    pub code: String,
    /// Right holder or project name (may be empty).
    pub owner: String,
    /// Scale denominator (empty = automatic).
    pub scale: String,
    /// Resolution in DPI (default 150).
    pub dpi: String,
    /// Surveyor (parcel sketches only).
    pub measurer: String,
    /// Cadastral district code (ownership maps only).
    pub cadastral_district: String,
}

impl Default for EstateMapState {
    /// The first kind, 150 DPI, everything else empty.
    fn default() -> (r: Self)
        ensures
            r.kind@ == ESTATE_MAP_KINDS@[0]@,
            r.code@.len() == 0,
            r.owner@.len() == 0,
            r.scale@.len() == 0,
            r.dpi@ == "150"@,
            r.measurer@.len() == 0,
            r.cadastral_district@.len() == 0,
    {
        EstateMapState {
            kind: String::from_str(ESTATE_MAP_KINDS[0]),
            code: String::new(),
            owner: String::new(),
            scale: String::new(),
            dpi: String::from_str("150"),
            measurer: String::new(),
            cadastral_district: String::new(),
        }
    }
}

impl EstateMapState {
    /// Whether the kind is the parcel sketch (which shows the surveyor field).
    pub fn is_sketch(&self) -> (r: bool)
        ensures
            r == (self.kind@ == ESTATE_MAP_KINDS@[2]@),
    {
        str_eq(self.kind.as_str(), ESTATE_MAP_KINDS[2])
    }

    /// Whether the kind is the ownership parcel map (which shows the district field).
    pub fn is_ownership(&self) -> (r: bool)
        ensures
            r == (self.kind@ == ESTATE_MAP_KINDS@[1]@),
    {
        str_eq(self.kind.as_str(), ESTATE_MAP_KINDS[1])
    }
}

/// The message refusing a scale denominator (given the trimmed text).
pub open spec fn scale_error_msg(t: Seq<char>) -> Seq<char> {
    "比例尺分母须为正整数（留空自动整百）: "@ + t
}

/// Scale denominator field: blank → automatic, a positive integer → that value,
/// anything else refused.
pub open spec fn parse_scale_spec(text: Seq<char>) -> Result<Option<u32>, Seq<char>> {
    let t = trim_seq(text);
    if t.len() == 0 {
        Ok(None)
    } else {
        match parse_u32_seq(t) {
            Some(n) if n > 0 => Ok(Some(n)),
            _ => Err(scale_error_msg(t)),
        }
    }
}

/// Parses the scale denominator field (surrounding whitespace ignored).
pub fn parse_scale(text: &str) -> (r: Result<Option<u32>, String>)
    ensures
        match (r, parse_scale_spec(text@)) {
            (Ok(a), Ok(b)) => a == b,
            (Err(m), Err(e)) => m@ == e,
            _ => false,
        },
{
    let t = trim(text);
    if t.unicode_len() == 0 {
        return Ok(None);
    }
    match parse_u32(t) {
        Some(n) if n > 0 => Ok(Some(n)),
        _ => {
            let mut m = String::from_str("比例尺分母须为正整数（留空自动整百）: ");
            m.append(t);
            Err(m)
        },
    }
}

/// The export format named by an output path: the text after its last `.`
/// (the whole path when it has none).
pub fn export_format(out: &str) -> (r: String)
    ensures
        r@ == after_last_seq(out@, '.'),
{
    String::from_str(after_last(out, '.'))
}

// ===== confirming and cancelling =====

/// The forms a dialog can show.
#[derive(Clone, Copy, PartialEq, Eq, Debug, Structural)]
pub enum DialogKind {
    Query,
    Export,
    Reproject,
    Buffer,
    Overlay,
    Sjoin,
    Zonal,
    Measure,
    ExportMap,
    EstateMap,
    SkillRun,
}

/// What a confirmed form asks the application to run.
#[derive(Debug)]
pub enum DialogResult {
    /// Attribute query.
    Query { layer: String, expr: String },
    /// Layer export (format: the output path's extension).
    Export { layer: String, out: String, fmt: String },
    /// Reprojection.
    Reproject { layer: String, from: String, to: String },
    /// Buffer; the distance is the trimmed text, a non-zero finite number.
    Buffer { layer: String, distance: String },
    /// Overlay.
    Overlay { target: String, overlay: String, op: String },
    /// Spatial join.
    Sjoin { target: String, join: String, predicate: String },
    /// Zonal statistics.
    Zonal { zones: String, values: String, field: String, stats: String },
    /// Geodesic measurement.
    Measure { layer: String, kind: String },
    /// Map export.
    ExportMap { out: String },
    /// Real-estate map; texts trimmed, the DPI text accepted by the caller.
    EstateMap {
        kind: String,
        code: String,
        owner: String,
        scale: Option<u32>,
        dpi: String,
        measurer: String,
        cadastral_district: String,
    },
    /// Skill run.
    SkillRun { skill_id: String, layer: String },
    /// The form was refused (it stays open); the reason is shown.
    Invalid { reason: String },
}

impl Dialogs {
    /// Whether the form of `kind` is open.
    pub open spec fn form_open(self, kind: DialogKind) -> bool {
        match kind {
            DialogKind::Query => self.query is Some,
            DialogKind::Export => self.export is Some,
            DialogKind::Reproject => self.reproject is Some,
            DialogKind::Buffer => self.buffer is Some,
            DialogKind::Overlay => self.overlay is Some,
            DialogKind::Sjoin => self.sjoin is Some,
            DialogKind::Zonal => self.zonal is Some,
            DialogKind::Measure => self.measure is Some,
            DialogKind::ExportMap => self.export_map is Some,
            DialogKind::EstateMap => self.estate_map is Some,
            DialogKind::SkillRun => self.skill_run is Some,
        }
    }

    /// `self` with the form of `kind` closed.
    pub open spec fn without(self, kind: DialogKind) -> Dialogs {
        match kind {
            DialogKind::Query => Dialogs { query: None, ..self },
            DialogKind::Export => Dialogs { export: None, ..self },
            DialogKind::Reproject => Dialogs { reproject: None, ..self },
            DialogKind::Buffer => Dialogs { buffer: None, ..self },
            DialogKind::Overlay => Dialogs { overlay: None, ..self },
            DialogKind::Sjoin => Dialogs { sjoin: None, ..self },
            DialogKind::Zonal => Dialogs { zonal: None, ..self },
            DialogKind::Measure => Dialogs { measure: None, ..self },
            DialogKind::ExportMap => Dialogs { export_map: None, ..self },
            DialogKind::EstateMap => Dialogs { estate_map: None, ..self },
            DialogKind::SkillRun => Dialogs { skill_run: None, ..self },
        }
    }

    /// Opens the form of `kind` with empty fields; the reprojection form
    /// starts from EPSG:4326 to the project's coordinate system, the
    /// real-estate form with its defaults. The other forms stay as they were.
    /// `next` is `self` with the form of `kind` opened afresh (see
    /// [`Dialogs::open_form`]).
    pub open spec fn opened_form(self, next: Dialogs, kind: DialogKind, crs: Seq<char>) -> bool {
        &&& next.without(kind) == self.without(kind)
        &&& match kind {
            DialogKind::Query => next.query matches Some(st) && st.layer@.len() == 0
                && st.expr@.len() == 0,
            DialogKind::Export => next.export matches Some(st) && st.layer@.len() == 0
                && st.out@.len() == 0,
            DialogKind::Reproject => next.reproject matches Some(st) && st.layer@.len()
                == 0 && st.from@ == "EPSG:4326"@ && st.to@ == crs,
            DialogKind::Buffer => next.buffer matches Some(st) && st.layer@.len() == 0
                && st.distance@.len() == 0,
            DialogKind::Overlay => next.overlay matches Some(st) && st.target@.len() == 0
                && st.overlay@.len() == 0 && st.op@.len() == 0,
            DialogKind::Sjoin => next.sjoin matches Some(st) && st.target@.len() == 0
                && st.join@.len() == 0 && st.predicate@.len() == 0,
            DialogKind::Zonal => next.zonal matches Some(st) && st.zones@.len() == 0
                && st.values@.len() == 0 && st.field@.len() == 0 && st.stats@.len() == 0,
            DialogKind::Measure => next.measure matches Some(st) && st.layer@.len() == 0
                && st.kind@.len() == 0,
            DialogKind::ExportMap => next.export_map matches Some(st) && st.out@.len()
                == 0,
            DialogKind::EstateMap => next.estate_map matches Some(st) && st.kind@
                == ESTATE_MAP_KINDS@[0]@ && st.code@.len() == 0 && st.owner@.len() == 0
                && st.scale@.len() == 0 && st.dpi@ == "150"@ && st.measurer@.len() == 0
                && st.cadastral_district@.len() == 0,
            DialogKind::SkillRun => next.skill_run matches Some(st) && st.skill_id@.len()
                == 0 && st.layer@.len() == 0,
        }
    }

    pub fn open_form(&mut self, kind: DialogKind, project_crs: &str)
        ensures
            old(self).opened_form(*final(self), kind, project_crs@),
    {
        match kind {
            DialogKind::Query => {
                self.query = Some(QueryState { layer: String::new(), expr: String::new() });
            },
            DialogKind::Export => {
                self.export = Some(ExportState { layer: String::new(), out: String::new() });
            },
            DialogKind::Reproject => {
                self.reproject = Some(
                    ReprojectState {
                        layer: String::new(),
                        from: String::from_str("EPSG:4326"),
                        to: String::from_str(project_crs),
                    },
                );
            },
            DialogKind::Buffer => {
                self.buffer = Some(BufferState { layer: String::new(), distance: String::new() });
            },
            DialogKind::Overlay => {
                self.overlay = Some(
                    OverlayState { target: String::new(), overlay: String::new(), op: String::new() },
                );
            },
            DialogKind::Sjoin => {
                self.sjoin = Some(
                    SjoinState {
                        target: String::new(),
                        join: String::new(),
                        predicate: String::new(),
                    },
                );
            },
            DialogKind::Zonal => {
                self.zonal = Some(
                    ZonalState {
                        zones: String::new(),
                        values: String::new(),
                        field: String::new(),
                        stats: String::new(),
                    },
                );
            },
            DialogKind::Measure => {
                self.measure = Some(MeasureState { layer: String::new(), kind: String::new() });
            },
            DialogKind::ExportMap => {
                self.export_map = Some(ExportMapState { out: String::new() });
            },
            DialogKind::EstateMap => {
                self.estate_map = Some(EstateMapState::default());
            },
            DialogKind::SkillRun => {
                self.skill_run = Some(SkillRunState { skill_id: String::new(), layer: String::new() });
            },
        }
    }

    /// Cancel: the form closes, nothing runs.
    pub fn cancel(&mut self, kind: DialogKind)
        ensures
            *final(self) == old(self).without(kind),
    {
        match kind {
            DialogKind::Query => self.query = None,
            DialogKind::Export => self.export = None,
            DialogKind::Reproject => self.reproject = None,
            DialogKind::Buffer => self.buffer = None,
            DialogKind::Overlay => self.overlay = None,
            DialogKind::Sjoin => self.sjoin = None,
            DialogKind::Zonal => self.zonal = None,
            DialogKind::Measure => self.measure = None,
            DialogKind::ExportMap => self.export_map = None,
            DialogKind::EstateMap => self.estate_map = None,
            DialogKind::SkillRun => self.skill_run = None,
        }
    }

    /// OK on a form without number fields: the form closes and its fields
    /// become the request (an export's format is its path's extension).
    /// Nothing happens when the form is not open, nor for the buffer and
    /// real-estate forms (see [`Dialogs::confirm_buffer`] and
    /// [`Dialogs::confirm_estate_map`]).
    pub fn confirm(&mut self, kind: DialogKind) -> (r: Option<DialogResult>)
        ensures
            !old(self).form_open(kind) || kind == DialogKind::Buffer || kind
                == DialogKind::EstateMap ==> r is None && *final(self) == *old(self),
            old(self).form_open(kind) && kind != DialogKind::Buffer && kind != DialogKind::EstateMap
                ==> *final(self) == old(self).without(kind) && match kind {
                DialogKind::Query => r == Some(
                    DialogResult::Query {
                        layer: old(self).query.unwrap().layer,
                        expr: old(self).query.unwrap().expr,
                    },
                ),
                DialogKind::Export => {
                    &&& r matches Some(DialogResult::Export { layer, out, fmt })
                    &&& layer == old(self).export.unwrap().layer
                    &&& out == old(self).export.unwrap().out
                    &&& fmt@ == after_last_seq(old(self).export.unwrap().out@, '.')
                },
                DialogKind::Reproject => r == Some(
                    DialogResult::Reproject {
                        layer: old(self).reproject.unwrap().layer,
                        from: old(self).reproject.unwrap().from,
                        to: old(self).reproject.unwrap().to,
                    },
                ),
                DialogKind::Overlay => r == Some(
                    DialogResult::Overlay {
                        target: old(self).overlay.unwrap().target,
                        overlay: old(self).overlay.unwrap().overlay,
                        op: old(self).overlay.unwrap().op,
                    },
                ),
                DialogKind::Sjoin => r == Some(
                    DialogResult::Sjoin {
                        target: old(self).sjoin.unwrap().target,
                        join: old(self).sjoin.unwrap().join,
                        predicate: old(self).sjoin.unwrap().predicate,
                    },
                ),
                DialogKind::Zonal => r == Some(
                    DialogResult::Zonal {
                        zones: old(self).zonal.unwrap().zones,
                        values: old(self).zonal.unwrap().values,
                        field: old(self).zonal.unwrap().field,
                        stats: old(self).zonal.unwrap().stats,
                    },
                ),
                DialogKind::Measure => r == Some(
                    DialogResult::Measure {
                        layer: old(self).measure.unwrap().layer,
                        kind: old(self).measure.unwrap().kind,
                    },
                ),
                DialogKind::ExportMap => r == Some(
                    DialogResult::ExportMap { out: old(self).export_map.unwrap().out },
                ),
                DialogKind::SkillRun => r == Some(
                    DialogResult::SkillRun {
                        skill_id: old(self).skill_run.unwrap().skill_id,
                        layer: old(self).skill_run.unwrap().layer,
                    },
                ),
                _ => false,
            },
    {
        match kind {
            DialogKind::Query => match self.query.take() {
                Some(st) => Some(DialogResult::Query { layer: st.layer, expr: st.expr }),
                None => None,
            },
            DialogKind::Export => match self.export.take() {
                Some(st) => {
                    let fmt = export_format(st.out.as_str());
                    Some(DialogResult::Export { layer: st.layer, out: st.out, fmt })
                },
                None => None,
            },
            DialogKind::Reproject => match self.reproject.take() {
                Some(st) => Some(
                    DialogResult::Reproject { layer: st.layer, from: st.from, to: st.to },
                ),
                None => None,
            },
            DialogKind::Overlay => match self.overlay.take() {
                Some(st) => Some(
                    DialogResult::Overlay { target: st.target, overlay: st.overlay, op: st.op },
                ),
                None => None,
            },
            DialogKind::Sjoin => match self.sjoin.take() {
                Some(st) => Some(
                    DialogResult::Sjoin {
                        target: st.target,
                        join: st.join,
                        predicate: st.predicate,
                    },
                ),
                None => None,
            },
            DialogKind::Zonal => match self.zonal.take() {
                Some(st) => Some(
                    DialogResult::Zonal {
                        zones: st.zones,
                        values: st.values,
                        field: st.field,
                        stats: st.stats,
                    },
                ),
                None => None,
            },
            DialogKind::Measure => match self.measure.take() {
                Some(st) => Some(DialogResult::Measure { layer: st.layer, kind: st.kind }),
                None => None,
            },
            DialogKind::ExportMap => match self.export_map.take() {
                Some(st) => Some(DialogResult::ExportMap { out: st.out }),
                None => None,
            },
            DialogKind::SkillRun => match self.skill_run.take() {
                Some(st) => Some(DialogResult::SkillRun { skill_id: st.skill_id, layer: st.layer }),
                None => None,
            },
            _ => None,
        }
    }

    /// OK on the buffer form, given whether its trimmed distance reads as a
    /// finite non-zero number: then the form closes and the buffer is
    /// requested; otherwise it stays open and the refusal names the text.
    pub fn confirm_buffer(&mut self, distance_ok: bool) -> (r: Option<DialogResult>)
        ensures
            match old(self).buffer {
                None => r is None && *final(self) == *old(self),
                Some(st) => if distance_ok {
                    &&& *final(self) == old(self).without(DialogKind::Buffer)
                    &&& r matches Some(DialogResult::Buffer { layer, distance })
                    &&& layer == st.layer
                    &&& distance@ == trim_seq(st.distance@)
                } else {
                    &&& *final(self) == *old(self)
                    &&& r matches Some(DialogResult::Invalid { reason })
                    &&& reason@ == "距离须为非零数值: "@ + st.distance@
                },
            },
    {
        if self.buffer.is_none() {
            return None;
        }
        if distance_ok {
            match self.buffer.take() {
                Some(st) => {
                    let distance = String::from_str(trim(st.distance.as_str()));
                    Some(DialogResult::Buffer { layer: st.layer, distance })
                },
                None => None,
            }
        } else {
            match &self.buffer {
                Some(st) => {
                    let mut reason = String::from_str("距离须为非零数值: ");
                    reason.append(st.distance.as_str());
                    Some(DialogResult::Invalid { reason })
                },
                None => None,
            }
        }
    }

    /// OK on the real-estate map form, given the verdict on its DPI text:
    /// with an accepted scale and DPI the form closes and the map is
    /// requested (texts trimmed); otherwise it stays open and the refusal is
    /// the scale's message, else the DPI's.
    pub fn confirm_estate_map(&mut self, dpi: Result<(), String>) -> (r: Option<DialogResult>)
        ensures
            match old(self).estate_map {
                None => r is None && *final(self) == *old(self),
                Some(st) => match (parse_scale_spec(st.scale@), dpi) {
                    (Ok(scale), Ok(())) => {
                        &&& *final(self) == old(self).without(DialogKind::EstateMap)
                        &&& r matches Some(
                            DialogResult::EstateMap {
                                kind,
                                code,
                                owner,
                                scale: s,
                                dpi: d,
                                measurer,
                                cadastral_district,
                            },
                        )
                        &&& kind == st.kind && d == st.dpi && s == scale
                        &&& code@ == trim_seq(st.code@) && owner@ == trim_seq(st.owner@)
                        &&& measurer@ == trim_seq(st.measurer@)
                        &&& cadastral_district@ == trim_seq(st.cadastral_district@)
                    },
                    (Err(e), _) => {
                        &&& *final(self) == *old(self)
                        &&& r matches Some(DialogResult::Invalid { reason })
                        &&& reason@ == e
                    },
                    (Ok(_), Err(e)) => *final(self) == *old(self) && r == Some(
                        DialogResult::Invalid { reason: e },
                    ),
                },
            },
    {
        let scale = match &self.estate_map {
            None => return None,
            Some(st) => parse_scale(st.scale.as_str()),
        };
        match (scale, dpi) {
            (Ok(s), Ok(())) => match self.estate_map.take() {
                Some(st) => Some(
                    DialogResult::EstateMap {
                        kind: st.kind,
                        code: String::from_str(trim(st.code.as_str())),
                        owner: String::from_str(trim(st.owner.as_str())),
                        scale: s,
                        dpi: st.dpi,
                        measurer: String::from_str(trim(st.measurer.as_str())),
                        cadastral_district: String::from_str(trim(st.cadastral_district.as_str())),
                    },
                ),
                None => None,
            },
            (Err(e), _) => Some(DialogResult::Invalid { reason: e }),
            (Ok(_), Err(e)) => Some(DialogResult::Invalid { reason: e }),
        }
    }
}

} // verus!
