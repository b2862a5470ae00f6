//! Map frames: view dimension, central tab keys and the tab-strip bookkeeping.

use vstd::prelude::*;

use crate::text::{dec_seq, push_decimal, str_eq};

verus! {

/// View dimension of a map frame.
#[derive(Clone, Copy, PartialEq, Eq, Debug, Structural)]
pub enum ViewDim {
    /// Two-dimensional map.
    TwoD,
    /// Experimental three-dimensional scene.
    ThreeD,
}

/// Display name of each dimension.
pub open spec fn view_dim_label(d: ViewDim) -> Seq<char> {
    match d {
        ViewDim::TwoD => "二维"@,
        ViewDim::ThreeD => "三维（实验性）"@,
    }
}

/// Persisted key of each dimension.
pub open spec fn view_dim_key(d: ViewDim) -> Seq<char> {
    match d {
        ViewDim::TwoD => "2d"@,
        ViewDim::ThreeD => "3d"@,
    }
}

/// The dimension a persisted key denotes (anything but `3d` is two-dimensional).
pub open spec fn view_dim_of_key(s: Seq<char>) -> ViewDim {
    if s == "3d"@ {
        ViewDim::ThreeD
    } else {
        ViewDim::TwoD
    }
}

/// Name of the "create" entry for each dimension.
pub open spec fn view_dim_create_label(d: ViewDim) -> Seq<char> {
    match d {
        ViewDim::TwoD => "二维地图框"@,
        ViewDim::ThreeD => "三维场景"@,
    }
}

impl ViewDim {
    /// Display name (segmented switch).
    pub fn label(self) -> (r: &'static str)
        ensures
            r@ == view_dim_label(self),
    {
        match self {
            ViewDim::TwoD => "二维",
            ViewDim::ThreeD => "三维（实验性）",
        }
    }

    /// Persisted key.
    pub fn as_str(self) -> (r: &'static str)
        ensures
            r@ == view_dim_key(self),
    {
        match self {
            ViewDim::TwoD => "2d",
            ViewDim::ThreeD => "3d",
        }
    }

    /// Reads a persisted key; unknown values fall back to two dimensions.
    pub fn parse(s: &str) -> (r: Self)
        ensures
            r == view_dim_of_key(s@),
    {
        if str_eq(s, "3d") {
            ViewDim::ThreeD
        } else {
            ViewDim::TwoD
        }
    }

    /// Name of the "create" entry.
    pub fn create_label(self) -> (r: &'static str)
        ensures
            r@ == view_dim_create_label(self),
    {
        match self {
            ViewDim::TwoD => "二维地图框",
            ViewDim::ThreeD => "三维场景",
        }
    }
}

/// Reading back the persisted key of a dimension gives the dimension.
pub proof fn law_view_dim_key_roundtrip(d: ViewDim)
    ensures
        view_dim_of_key(view_dim_key(d)) == d,
{
    reveal_strlit("2d");
    reveal_strlit("3d");
    assert("2d"@[0] == '2');
    assert("3d"@[0] == '3');
}

/// Key of a central tab.
#[derive(Clone, Copy, PartialEq, Eq, Debug, Structural)]
pub enum CentralTabKey {
    /// Map frame (index into the frames; 0 is the main frame). Named `Frame`
    /// because `Map` names a Verus prelude type.
    Frame(usize),
    /// Layout view (index into the layouts).
    Layout(usize),
}

/// Actions produced by the central tab strip.
#[derive(Default)]
pub struct ViewStripActions {
    /// Tab activated.
    pub activated: Option<CentralTabKey>,
    /// Tab closed (closing keeps the catalog entry).
    pub closed: Option<CentralTabKey>,
    /// Frame popped out into a floating window (the main frame cannot be).
    pub floated: Option<usize>,
    /// "New 2D map frame".
    pub new_view_2d: bool,
    /// "New 3D scene".
    pub new_view_3d: bool,
}

/// The active index after the entry at `removed` is deleted.
pub open spec fn active_after_remove(active: Option<usize>, removed: usize) -> Option<usize> {
    match active {
        Some(a) => if a == removed {
            None
        } else if a > removed {
            Some((a - 1) as usize)
        } else {
            Some(a)
        },
        None => None,
    }
}

/// Adjusts the active index after removing the entry at `removed`: removing the
/// active entry clears it, an active entry after the removed one moves down one.
pub fn adjust_active_after_remove(active: Option<usize>, removed: usize) -> (r: Option<usize>)
    ensures
        r == active_after_remove(active, removed),
{
    match active {
        Some(a) if a == removed => None,
        Some(a) if a > removed => Some(a - 1),
        other => other,
    }
}

/// After a removal the active index still names the same entry of the list: for
/// any list `v` and `removed < v.len()`, the adjusted index points into the list
/// with `removed` taken out, at the entry that was active before.
pub proof fn law_active_follows_entry<T>(v: Seq<T>, active: Option<usize>, removed: usize)
    requires
        removed < v.len(),
        active matches Some(a) ==> a < v.len(),
    ensures
        active_after_remove(active, removed) matches Some(b) ==> {
            &&& active matches Some(a)
            &&& b < v.len() - 1
            &&& v.remove(removed as int)[b as int] == v[a as int]
        },
        active_after_remove(active, removed) is None ==> (active is None || active == Some(
            removed,
        )),
{
}

/// A map frame as the frame list keeps it.
pub struct FrameEntry {
    /// Title.
    pub title: String,
    /// Layers it keeps while it is not the active frame.
    pub layer_count: usize,
}

/// The map frames (0 is the main frame) and the active one.
pub struct FrameList {
    /// The frames.
    pub frames: Vec<FrameEntry>,
    /// Index of the active frame.
    pub active: Option<usize>,
}

/// What asking to delete a frame gave.
pub enum FrameDeletion {
    /// No frame has that index.
    Ignored,
    /// Refused, with the reason shown to the user.
    Refused(String),
    /// Deleted: the terminal line, and whether the deleted frame was active so
    /// that the application falls back to the main frame.
    Deleted { message: String, fall_back_to_main: bool },
}

/// The reason a frame may not be deleted, if any: the main frame, the last
/// frame, or any frame while an editing session runs.
pub open spec fn deletion_refusal(idx: nat, count: nat, editing: bool) -> Option<Seq<char>> {
    if idx == 0 {
        Some("默认地图框「地图」不可删除"@)
    } else if count <= 1 {
        Some("至少保留一个地图框"@)
    } else if editing {
        Some("编辑会话进行中——请先保存或放弃编辑再删除地图框"@)
    } else {
        None
    }
}

impl FrameList {
    /// Deletes frame `idx` (from the catalog's context menu). `editing` says
    /// whether an editing session runs; `active_layers` is the number of
    /// layers shown, which the active frame holds. The main frame and the last
    /// frame are never deleted.
    pub fn delete_frame(&mut self, idx: usize, editing: bool, active_layers: usize) -> (r: FrameDeletion)
        ensures
            idx >= old(self).frames@.len() ==> r is Ignored && *final(self) == *old(self),
            idx < old(self).frames@.len() ==> match deletion_refusal(
                idx as nat,
                old(self).frames@.len(),
                editing,
            ) {
                Some(m) => (r matches FrameDeletion::Refused(t) && t@ == m) && *final(self)
                    == *old(self),
                None => {
                    let n = if old(self).active == Some(idx) {
                        active_layers
                    } else {
                        old(self).frames@[idx as int].layer_count
                    };
                    &&& final(self).frames@ == old(self).frames@.remove(idx as int)
                    &&& final(self).active == active_after_remove(old(self).active, idx)
                    &&& r matches FrameDeletion::Deleted { message, fall_back_to_main }
                        && fall_back_to_main == (old(self).active == Some(idx)) && message@
                        == "已删除地图框「"@ + old(self).frames@[idx as int].title@ + "」（含 "@
                        + dec_seq(n as nat) + " 个图层）"@
                },
            },
            r is Deleted ==> idx != 0 && old(self).frames@.len() > 1 && !editing,
    {
        if idx >= self.frames.len() {
            return FrameDeletion::Ignored;
        }
        if idx == 0 {
            return FrameDeletion::Refused(String::from_str("默认地图框「地图」不可删除"));
        }
        if self.frames.len() <= 1 {
            return FrameDeletion::Refused(String::from_str("至少保留一个地图框"));
        }
        if editing {
            return FrameDeletion::Refused(
                String::from_str("编辑会话进行中——请先保存或放弃编辑再删除地图框"),
            );
        }
        let was_active = match self.active {
            Some(a) => a == idx,
            None => false,
        };
        let n = if was_active {
            active_layers
        } else {
            self.frames[idx].layer_count
        };
        let f = self.frames.remove(idx);
        self.active = adjust_active_after_remove(self.active, idx);
        let mut m = String::from_str("已删除地图框「");
        m.append(f.title.as_str());
        m.append("」（含 ");
        push_decimal(&mut m, n as u64);
        m.append(" 个图层）");
        FrameDeletion::Deleted { message: m, fall_back_to_main: was_active }
    }
}

} // verus!
