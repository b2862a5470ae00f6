//! Docking system: the panel registry, where each panel is docked, which panels
//! are open, and which tab each docked zone shows.

use vstd::prelude::*;

verus! {

/// A dockable panel.
#[derive(Clone, Copy, PartialEq, Eq, Debug, Hash, Structural)]
pub enum PanelId {
    /// Catalog (file browser).
    Catalog,
    /// Layers (contents tree).
    Layers,
    /// Toolbox.
    Toolbox,
    /// Attribute table.
    AttrTable,
    /// Terminal.
    Console,
    /// AI chat.
    AiChat,
}

/// Registry index of each panel.
pub open spec fn panel_index(id: PanelId) -> int {
    match id {
        PanelId::Catalog => 0,
        PanelId::Layers => 1,
        PanelId::Toolbox => 2,
        PanelId::AttrTable => 3,
        PanelId::Console => 4,
        PanelId::AiChat => 5,
    }
}

/// The panel at registry index `i` (`0 <= i < 6`).
pub open spec fn panel_at(i: int) -> PanelId {
    if i == 0 {
        PanelId::Catalog
    } else if i == 1 {
        PanelId::Layers
    } else if i == 2 {
        PanelId::Toolbox
    } else if i == 3 {
        PanelId::AttrTable
    } else if i == 4 {
        PanelId::Console
    } else {
        PanelId::AiChat
    }
}

/// Title of each panel.
pub open spec fn panel_title(id: PanelId) -> Seq<char> {
    match id {
        PanelId::Catalog => "目录"@,
        PanelId::Layers => "图层"@,
        PanelId::Toolbox => "工具箱"@,
        PanelId::AttrTable => "属性表"@,
        PanelId::Console => "终端"@,
        PanelId::AiChat => "AI 对话"@,
    }
}

/// Zone each panel docks to on first start.
pub open spec fn panel_default_zone(id: PanelId) -> DockZone {
    match id {
        PanelId::Catalog | PanelId::Layers => DockZone::Left,
        PanelId::Toolbox => DockZone::Right,
        PanelId::AttrTable | PanelId::Console | PanelId::AiChat => DockZone::Bottom,
    }
}

impl PanelId {
    /// All panels, in registry (tab) order.
    pub const ALL: [PanelId; 6] = [
        PanelId::Catalog,
        PanelId::Layers,
        PanelId::Toolbox,
        PanelId::AttrTable,
        PanelId::Console,
        PanelId::AiChat,
    ];

    /// Tab / window title.
    pub fn title(self) -> (r: &'static str)
        ensures
            r@ == panel_title(self),
    {
        match self {
            PanelId::Catalog => "目录",
            PanelId::Layers => "图层",
            PanelId::Toolbox => "工具箱",
            PanelId::AttrTable => "属性表",
            PanelId::Console => "终端",
            PanelId::AiChat => "AI 对话",
        }
    }

    /// Zone on first start.
    pub fn default_zone(self) -> (r: DockZone)
        ensures
            r == panel_default_zone(self),
    {
        match self {
            PanelId::Catalog | PanelId::Layers => DockZone::Left,
            PanelId::Toolbox => DockZone::Right,
            PanelId::AttrTable | PanelId::Console | PanelId::AiChat => DockZone::Bottom,
        }
    }

    /// Registry index.
    pub fn index(self) -> (r: usize)
        ensures
            r == panel_index(self),
            r < 6,
            panel_at(r as int) == self,
    {
        match self {
            PanelId::Catalog => 0,
            PanelId::Layers => 1,
            PanelId::Toolbox => 2,
            PanelId::AttrTable => 3,
            PanelId::Console => 4,
            PanelId::AiChat => 5,
        }
    }
}

/// The panel at registry index `i`.
fn panel_at_exec(i: usize) -> (r: PanelId)
    requires
        i < 6,
    ensures
        r == panel_at(i as int),
        panel_index(r) == i,
{
    if i == 0 {
        PanelId::Catalog
    } else if i == 1 {
        PanelId::Layers
    } else if i == 2 {
        PanelId::Toolbox
    } else if i == 3 {
        PanelId::AttrTable
    } else if i == 4 {
        PanelId::Console
    } else {
        PanelId::AiChat
    }
}

/// Dock zone; `Floating` is a free window that takes no edge.
#[derive(Clone, Copy, PartialEq, Eq, Debug, Structural)]
pub enum DockZone {
    /// Left edge.
    Left,
    /// Right edge.
    Right,
    /// Bottom edge.
    Bottom,
    /// Floating window.
    Floating,
}

/// Edge index of a docked zone.
pub open spec fn zone_index(z: DockZone) -> int {
    match z {
        DockZone::Left => 0,
        DockZone::Right => 1,
        DockZone::Bottom => 2,
        DockZone::Floating => 3,
    }
}

impl DockZone {
    /// The three edges (floating excluded).
    pub const DOCKED: [DockZone; 3] = [DockZone::Left, DockZone::Right, DockZone::Bottom];

    /// Edge index; only edges have one.
    pub fn docked_index(self) -> (r: usize)
        requires
            self != DockZone::Floating,
        ensures
            r == zone_index(self),
            r < 3,
    {
        match self {
            DockZone::Left => 0,
            DockZone::Right => 1,
            _ => 2,
        }
    }
}

/// State of one panel.
#[derive(Clone, Copy, Debug)]
struct PanelState {
    zone: DockZone,
    open: bool,
}

/// Docking layout: zone and open flag of every panel, the tab each edge shows,
/// and the panel being dragged. Window rectangles stay with the caller.
pub struct DockState {
    panels: [PanelState; 6],
    /// Current tab of each edge.
    active: [Option<PanelId>; 3],
    /// Panel being dragged (tab or floating title bar).
    pub dragging: Option<PanelId>,
}

impl DockState {
    /// Zone of a panel.
    pub closed spec fn zone_s(self, id: PanelId) -> DockZone {
        self.panels@[panel_index(id)].zone
    }

    /// Whether a panel is open.
    pub closed spec fn open_s(self, id: PanelId) -> bool {
        self.panels@[panel_index(id)].open
    }

    /// The tab last chosen for an edge.
    pub closed spec fn chosen_s(self, z: DockZone) -> Option<PanelId> {
        self.active@[zone_index(z)]
    }

    /// The panel being dragged.
    pub closed spec fn dragging_s(self) -> Option<PanelId> {
        self.dragging
    }

    /// Open panels in `zone` among the first `k` of the registry, in order.
    pub open spec fn panels_in_upto(self, zone: DockZone, k: nat) -> Seq<PanelId>
        decreases k,
    {
        if k == 0 {
            seq![]
        } else {
            let p = self.panels_in_upto(zone, (k - 1) as nat);
            let id = panel_at(k - 1);
            if self.open_s(id) && self.zone_s(id) == zone {
                p.push(id)
            } else {
                p
            }
        }
    }

    /// Open panels in `zone`, in registry order.
    pub open spec fn panels_in_s(self, zone: DockZone) -> Seq<PanelId> {
        self.panels_in_upto(zone, 6)
    }

    /// The tab an edge shows: the chosen tab while it is open and docked there,
    /// otherwise the first open panel of the edge.
    pub open spec fn active_in_s(self, zone: DockZone) -> Option<PanelId> {
        match self.chosen_s(zone) {
            Some(id) if self.open_s(id) && self.zone_s(id) == zone => Some(id),
            _ => if self.panels_in_s(zone).len() > 0 {
                Some(self.panels_in_s(zone)[0])
            } else {
                None
            },
        }
    }

    /// The state other than panel `id` is the same in `self` and `other`.
    pub open spec fn same_except(self, other: Self, id: PanelId) -> bool {
        forall|p: PanelId|
            p != id ==> #[trigger] self.zone_s(p) == other.zone_s(p) && self.open_s(p)
                == other.open_s(p)
    }

    /// `next` is `self` with panel `id` opened where it was placed; on an
    /// edge it becomes the edge's tab.
    pub open spec fn opens(self, next: Self, id: PanelId) -> bool {
        &&& next.open_s(id)
        &&& next.zone_s(id) == self.zone_s(id)
        &&& next.same_except(self, id)
        &&& next.dragging_s() == self.dragging_s()
        &&& self.zone_s(id) != DockZone::Floating ==> next.active_in_s(self.zone_s(id)) == Some(id)
    }

    /// `next` is `self` with panel `id` closed: it keeps its place, the
    /// chosen tabs stay (an edge falls back while its tab is closed), and a
    /// drag of it ends.
    pub open spec fn closes(self, next: Self, id: PanelId) -> bool {
        &&& !next.open_s(id)
        &&& next.zone_s(id) == self.zone_s(id)
        &&& next.same_except(self, id)
        &&& forall|z: DockZone| #[trigger] next.chosen_s(z) == self.chosen_s(z)
        &&& next.dragging_s() == (if self.dragging_s() == Some(id) {
            None
        } else {
            self.dragging_s()
        })
    }

    /// Panel zone.
    pub fn zone_of(&self, id: PanelId) -> (r: DockZone)
        ensures
            r == self.zone_s(id),
    {
        self.panels[id.index()].zone
    }

    /// Whether the panel is open.
    pub fn is_open(&self, id: PanelId) -> (r: bool)
        ensures
            r == self.open_s(id),
    {
        self.panels[id.index()].open
    }

    /// Whether the panel shows as a floating window.
    pub fn is_floating(&self, id: PanelId) -> (r: bool)
        ensures
            r == (self.open_s(id) && self.zone_s(id) == DockZone::Floating),
    {
        let i = id.index();
        self.panels[i].open && self.panels[i].zone == DockZone::Floating
    }

    /// Open panels of a zone, in registry order.
    pub fn panels_in(&self, zone: DockZone) -> (r: Vec<PanelId>)
        ensures
            r@ == self.panels_in_s(zone),
    {
        let mut out: Vec<PanelId> = Vec::new();
        let mut i: usize = 0;
        while i < 6
            invariant
                i <= 6,
                out@ == self.panels_in_upto(zone, i as nat),
            decreases 6 - i,
        {
            let id = panel_at_exec(i);
            if self.panels[i].open && self.panels[i].zone == zone {
                out.push(id);
            }
            i = i + 1;
        }
        out
    }

    /// Whether a zone has any open panel (edges without one are hidden).
    pub fn zone_has_panels(&self, zone: DockZone) -> (r: bool)
        ensures
            r == (self.panels_in_s(zone).len() > 0),
    {
        self.panels_in(zone).len() > 0
    }

    /// The tab an edge shows.
    pub fn active_in(&self, zone: DockZone) -> (r: Option<PanelId>)
        requires
            zone != DockZone::Floating,
        ensures
            r == self.active_in_s(zone),
    {
        let cur = self.active[zone.docked_index()];
        if let Some(id) = cur {
            let i = id.index();
            if self.panels[i].open && self.panels[i].zone == zone {
                return Some(id);
            }
        }
        let v = self.panels_in(zone);
        if v.len() > 0 {
            Some(v[0])
        } else {
            None
        }
    }

    /// Chooses the tab an edge shows (floating is ignored).
    pub fn set_active(&mut self, zone: DockZone, id: PanelId)
        ensures
            forall|p: PanelId|
                #![trigger final(self).zone_s(p)]
                final(self).zone_s(p) == old(self).zone_s(p) && final(self).open_s(p) == old(
                    self,
                ).open_s(p),
            final(self).dragging_s() == old(self).dragging_s(),
            forall|z: DockZone|
                z != DockZone::Floating ==> #[trigger] final(self).chosen_s(z) == if z == zone {
                    Some(id)
                } else {
                    old(self).chosen_s(z)
                },
    {
        if zone != DockZone::Floating {
            self.active[zone.docked_index()] = Some(id);
        }
    }

    /// Opens a panel where it was last placed; on an edge it becomes the tab.
    pub fn open_panel(&mut self, id: PanelId)
        ensures
            old(self).opens(*final(self), id),
    {
        let i = id.index();
        self.panels[i].open = true;
        let zone = self.panels[i].zone;
        if zone != DockZone::Floating {
            self.set_active(zone, id);
        }
    }

    /// Closes a panel (its edge falls back to another tab).
    pub fn close_panel(&mut self, id: PanelId)
        ensures
            old(self).closes(*final(self), id),
    {
        let i = id.index();
        self.panels[i].open = false;
        if self.dragging == Some(id) {
            self.dragging = None;
        }
    }

    /// Shows a closed panel, hides an open one.
    pub fn toggle_panel(&mut self, id: PanelId)
        ensures
            old(self).open_s(id) ==> old(self).closes(*final(self), id),
            !old(self).open_s(id) ==> old(self).opens(*final(self), id),
    {
        if self.is_open(id) {
            self.close_panel(id);
        } else {
            self.open_panel(id);
        }
    }

    /// Docks a panel on an edge, opens it and makes it the edge's tab.
    pub fn dock_to(&mut self, id: PanelId, zone: DockZone)
        requires
            zone != DockZone::Floating,
        ensures
            final(self).zone_s(id) == zone,
            final(self).open_s(id),
            final(self).same_except(*old(self), id),
            final(self).active_in_s(zone) == Some(id),
            final(self).dragging_s() == old(self).dragging_s(),
    {
        let i = id.index();
        self.panels[i].zone = zone;
        self.panels[i].open = true;
        self.set_active(zone, id);
    }

    /// Turns a panel into an open floating window.
    pub fn float(&mut self, id: PanelId)
        ensures
            final(self).zone_s(id) == DockZone::Floating,
            final(self).open_s(id),
            final(self).same_except(*old(self), id),
            forall|z: DockZone| #[trigger] final(self).chosen_s(z) == old(self).chosen_s(z),
            final(self).dragging_s() == old(self).dragging_s(),
    {
        let i = id.index();
        self.panels[i].zone = DockZone::Floating;
        self.panels[i].open = true;
    }

    /// Opens or closes every panel.
    pub fn set_all_open(&mut self, open: bool)
        ensures
            forall|p: PanelId| #[trigger] final(self).open_s(p) == open,
            forall|p: PanelId| #[trigger] final(self).zone_s(p) == old(self).zone_s(p),
            forall|z: DockZone| #[trigger] final(self).chosen_s(z) == old(self).chosen_s(z),
            final(self).dragging_s() == (if open {
                old(self).dragging_s()
            } else {
                None
            }),
    {
        let mut i: usize = 0;
        while i < 6
            invariant
                i <= 6,
                forall|k: int| 0 <= k < i ==> #[trigger] self.panels@[k].open == open,
                forall|k: int| 0 <= k < 6 ==> #[trigger] self.panels@[k].zone == old(
                    self,
                ).panels@[k].zone,
                forall|k: int| i <= k < 6 ==> #[trigger] self.panels@[k] == old(self).panels@[k],
                self.active == old(self).active,
                self.dragging == old(self).dragging,
            decreases 6 - i,
        {
            self.panels[i].open = open;
            i = i + 1;
        }
        if !open {
            self.dragging = None;
        }
    }
}

/// The layout on first start.
pub open spec fn default_layout_holds(d: DockState) -> bool {
    &&& forall|p: PanelId| #[trigger] d.zone_s(p) == panel_default_zone(p)
    &&& forall|p: PanelId|
        #[trigger] d.open_s(p) == (p != PanelId::Toolbox && p != PanelId::AttrTable)
    &&& d.chosen_s(DockZone::Left) == Some(PanelId::Layers)
    &&& d.chosen_s(DockZone::Right) is None
    &&& d.chosen_s(DockZone::Bottom) == Some(PanelId::Console)
    &&& d.dragging_s() is None
}

impl Default for DockState {
    /// Catalog and Layers on the left, Console and AI chat at the bottom, Toolbox
    /// (right) and the attribute table closed; Layers and Console are the tabs.
    fn default() -> (r: Self)
        ensures
            default_layout_holds(r),
    {
        DockState {
            panels: [
                PanelState { zone: DockZone::Left, open: true },
                PanelState { zone: DockZone::Left, open: true },
                PanelState { zone: DockZone::Right, open: false },
                PanelState { zone: DockZone::Bottom, open: false },
                PanelState { zone: DockZone::Bottom, open: true },
                PanelState { zone: DockZone::Bottom, open: true },
            ],
            active: [Some(PanelId::Layers), None, Some(PanelId::Console)],
            dragging: None,
        }
    }
}

/// The tab an edge shows is an open panel docked on that edge, and an edge with
/// an open panel always shows one.
pub proof fn law_active_tab_belongs_to_zone(d: DockState, zone: DockZone)
    ensures
        d.active_in_s(zone) matches Some(id) ==> d.open_s(id) && d.zone_s(id) == zone,
        d.active_in_s(zone) is None <==> d.panels_in_s(zone).len() == 0,
{
    lemma_panels_in_members(d, zone, 6);
    if let Some(id) = d.chosen_s(zone) {
        if d.open_s(id) && d.zone_s(id) == zone {
            lemma_member_listed(d, zone, id, 6);
        }
    }
}

/// Closing a panel and opening it again brings it back where it was (on its
/// edge, or floating), open, with every other panel as before.
pub proof fn law_reopen_restores_place(s0: DockState, s1: DockState, s2: DockState, id: PanelId)
    requires
        s0.closes(s1, id),
        s1.opens(s2, id),
    ensures
        s2.open_s(id),
        s2.zone_s(id) == s0.zone_s(id),
        s2.same_except(s0, id),
        s0.zone_s(id) != DockZone::Floating ==> s2.active_in_s(s0.zone_s(id)) == Some(id),
{
}

/// An open panel docked in `zone` is listed once the prefix reaches it.
proof fn lemma_member_listed(d: DockState, zone: DockZone, id: PanelId, k: nat)
    requires
        d.open_s(id),
        d.zone_s(id) == zone,
        panel_index(id) < k,
    ensures
        d.panels_in_upto(zone, k).len() > 0,
    decreases k,
{
    if panel_index(id) < k - 1 {
        lemma_member_listed(d, zone, id, (k - 1) as nat);
    } else {
        assert(panel_at(k - 1) == id);
    }
}

/// Every panel listed for a zone is open and docked there.
proof fn lemma_panels_in_members(d: DockState, zone: DockZone, k: nat)
    ensures
        forall|i: int|
            0 <= i < d.panels_in_upto(zone, k).len() ==> d.open_s(
                #[trigger] d.panels_in_upto(zone, k)[i],
            ) && d.zone_s(d.panels_in_upto(zone, k)[i]) == zone,
    decreases k,
{
    if k > 0 {
        lemma_panels_in_members(d, zone, (k - 1) as nat);
    }
}

/// Edge a drop lands on, from the pointer's hits: outside the content area none,
/// on an edge strip that edge (left and right strips own the corners), elsewhere
/// a floating window.
pub open spec fn drop_zone_spec(in_area: bool, in_left: bool, in_right: bool, in_bottom: bool) -> Option<
    DockZone,
> {
    if !in_area {
        None
    } else if in_left {
        Some(DockZone::Left)
    } else if in_right {
        Some(DockZone::Right)
    } else if in_bottom {
        Some(DockZone::Bottom)
    } else {
        Some(DockZone::Floating)
    }
}

/// Target zone of a drop, given whether the pointer is in the content area and
/// in each edge strip.
pub fn drop_zone_from_hits(in_area: bool, in_left: bool, in_right: bool, in_bottom: bool) -> (r:
    Option<DockZone>)
    ensures
        r == drop_zone_spec(in_area, in_left, in_right, in_bottom),
{
    if !in_area {
        None
    } else if in_left {
        Some(DockZone::Left)
    } else if in_right {
        Some(DockZone::Right)
    } else if in_bottom {
        Some(DockZone::Bottom)
    } else {
        Some(DockZone::Floating)
    }
}

/// Settles a drop: a release over the dragged panel's own docked edge counts as
/// no move (instead of floating); other targets stand. `origin` is the source
/// zone and whether its last rectangle contains the pointer.
pub open spec fn resolve_drop_spec(target: Option<DockZone>, origin: Option<(DockZone, bool)>) -> Option<
    DockZone,
> {
    match (target, origin) {
        (Some(DockZone::Floating), Some((zone, hit))) if zone != DockZone::Floating && hit => Some(
            zone,
        ),
        _ => target,
    }
}

/// Settles a drop given the geometric target and the source edge's hit.
pub fn resolve_drop_zone(target: Option<DockZone>, origin: Option<(DockZone, bool)>) -> (r: Option<
    DockZone,
>)
    ensures
        r == resolve_drop_spec(target, origin),
{
    if target == Some(DockZone::Floating) {
        if let Some((zone, hit)) = origin {
            if zone != DockZone::Floating && hit {
                return Some(zone);
            }
        }
    }
    target
}

/// Actions produced by an edge's tab strip.
#[derive(Default)]
pub struct StripActions {
    /// Tab clicked.
    pub activated: Option<PanelId>,
    /// Close button clicked.
    pub closed: Option<PanelId>,
    /// Drag started on a tab.
    pub drag_started: Option<PanelId>,
    /// Context menu: open all / close all.
    pub set_all_open: Option<bool>,
}

} // verus!
