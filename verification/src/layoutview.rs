//! The layout dialog ("new layout frame"): its fields, their check, and the
//! page settings they produce; and the actions a layout view asks for.

use vstd::prelude::*;

use crate::text::{dec_seq, push_decimal, trim, trim_seq};

verus! {

/// What a layout view asks the application to do.
#[derive(Clone, Copy, PartialEq, Eq, Debug, Structural)]
pub enum LayoutAction {
    /// Export as PNG.
    ExportPng,
    /// Export as SVG.
    ExportSvg,
}

/// The page of a layout.
#[derive(Clone, Copy, PartialEq, Eq, Debug, Structural)]
pub enum PageSize {
    /// A4, landscape.
    A4Landscape,
    /// A4, portrait.
    A4Portrait,
}

/// The name of a page size.
pub open spec fn page_label(p: PageSize) -> Seq<char> {
    match p {
        PageSize::A4Landscape => "A4 横"@,
        PageSize::A4Portrait => "A4 纵"@,
    }
}

impl PageSize {
    /// The page size's name.
    pub fn label(self) -> (r: &'static str)
        ensures
            r@ == page_label(self),
    {
        match self {
            PageSize::A4Landscape => "A4 横",
            PageSize::A4Portrait => "A4 纵",
        }
    }
}

/// The caption of a layout view's toolbar: page, resolution and title.
pub fn layout_caption(page: PageSize, dpi: u32, title: &str) -> (r: String)
    ensures
        r@ == page_label(page) + " · "@ + dec_seq(dpi as nat) + "dpi · 标题「"@ + title@ + "」"@,
{
    let mut t = String::from_str(page.label());
    t.append(" · ");
    push_decimal(&mut t, dpi as u64);
    t.append("dpi · 标题「");
    t.append(title);
    t.append("」");
    t
}

/// The layout settings the dialog decides (the renderer keeps its defaults
/// for the rest).
pub struct LayoutSpec {
    /// Page size and orientation.
    pub page: PageSize,
    /// Title (trimmed).
    pub title: String,
    /// Legend shown.
    pub show_legend: bool,
    /// Scale bar shown.
    pub show_scalebar: bool,
    /// North arrow shown.
    pub show_north: bool,
}

/// The state of the layout dialog.
pub struct LayoutDialogState {
    /// Title.
    pub title: String,
    /// Landscape page.
    pub landscape: bool,
    /// Legend.
    pub legend: bool,
    /// Scale bar.
    pub scalebar: bool,
    /// North arrow.
    pub north: bool,
}

impl Default for LayoutDialogState {
    /// No title; landscape, with legend, scale bar and north arrow.
    fn default() -> (r: Self)
        ensures
            r.title@.len() == 0,
            r.landscape,
            r.legend,
            r.scalebar,
            r.north,
    {
        LayoutDialogState {
            title: String::new(),
            landscape: true,
            legend: true,
            scalebar: true,
            north: true,
        }
    }
}

/// The refusal of a blank title.
pub open spec fn blank_title_msg() -> Seq<char> {
    "布局标题不能为空"@
}

impl LayoutDialogState {
    /// Refuses a title that is empty once trimmed.
    pub fn validate(&self) -> (r: Result<(), String>)
        ensures
            r is Err <==> trim_seq(self.title@).len() == 0,
            r matches Err(e) ==> e@ == blank_title_msg(),
    {
        if trim(self.title.as_str()).unicode_len() == 0 {
            return Err(String::from_str("布局标题不能为空"));
        }
        Ok(())
    }

    /// The page settings: A4 in the chosen orientation, the trimmed title,
    /// and the chosen map elements.
    pub fn to_spec(&self) -> (r: LayoutSpec)
        ensures
            r.page == (if self.landscape {
                PageSize::A4Landscape
            } else {
                PageSize::A4Portrait
            }),
            r.title@ == trim_seq(self.title@),
            r.show_legend == self.legend,
            r.show_scalebar == self.scalebar,
            r.show_north == self.north,
    {
        LayoutSpec {
            page: if self.landscape {
                PageSize::A4Landscape
            } else {
                PageSize::A4Portrait
            },
            title: String::from_str(trim(self.title.as_str())),
            show_legend: self.legend,
            show_scalebar: self.scalebar,
            show_north: self.north,
        }
    }
}

} // verus!
