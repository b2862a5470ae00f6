//! The shell's command line: the usage text and the options read in
//! order, up to the first that ends the reading (help, version, an error).

use vstd::prelude::*;

use crate::text::str_eq;

verus! {

/// The usage text.
pub open spec fn usage_text() -> Seq<char> {
    "用法: kanyu-shell [--load <数据文件|工程.kyu>]…（可多次指定） [--theme light|dark] \\\n              [--screenshot <out.png> [--delay <秒>]]\n支持格式: shp/geojson/fgb/parquet/dxf/dwg/kml/kmz/csv/tsv/xlsx（.kyu 为堪舆工程）"@
}

/// The usage text.
pub fn usage() -> (r: String)
    ensures
        r@ == usage_text(),
{
    String::from_str(
        "用法: kanyu-shell [--load <数据文件|工程.kyu>]…（可多次指定） [--theme light|dark] \\\n              [--screenshot <out.png> [--delay <秒>]]\n支持格式: shp/geojson/fgb/parquet/dxf/dwg/kml/kmz/csv/tsv/xlsx（.kyu 为堪舆工程）",
    )
}

/// A switch for a demonstration start-up state.
#[derive(Clone, Copy, PartialEq, Eq, Debug, Structural)]
pub enum DemoFlag {
    /// `--dock-demo`: the right-dock, floating and closed demo layout.
    DockDemo,
    /// `--open-settings`: open the settings dialog at start.
    OpenSettings,
    /// `--tool-demo`: open the buffer tool dialog at start.
    ToolDemo,
    /// `--calc-demo`: open the attribute table and field calculator at start.
    CalcDemo,
    /// `--view-demo`: open a floating 3D view at start.
    ViewDemo,
    /// `--dock-demo2`: the crossed dock layout.
    DockDemo2,
    /// `--catalog-demo`: expand the catalog deeply at start.
    CatalogDemo,
    /// `--props-demo`: open the first layer's properties at start.
    PropsDemo,
    /// `--expand-layers`: expand every layer node at start.
    ExpandLayers,
}

/// One option of the command line.
#[derive(Debug)]
pub enum CliItem {
    /// `--load <file>` (may repeat).
    Load(String),
    /// `--theme <name>`; the renderer parses the name.
    Theme(String),
    /// `--screenshot <out.png>`.
    Screenshot(String),
    /// `--delay <seconds>`; read as a number by the program.
    Delay(String),
    /// `--zoom <factor>`; read as a number by the program.
    Zoom(String),
    /// A demonstration switch.
    Flag(DemoFlag),
    /// `-h` or `--help`: print the usage and stop.
    Help,
    /// `--version`: print the version and stop.
    Version,
    /// A missing value or an unknown option: the message, then the usage,
    /// and the program stops with status 2.
    Fail(String),
}

/// A [`CliItem`] with its texts as character sequences.
pub enum CliView {
    Load(Seq<char>),
    Theme(Seq<char>),
    Screenshot(Seq<char>),
    Delay(Seq<char>),
    Zoom(Seq<char>),
    Flag(DemoFlag),
    Help,
    Version,
    Fail(Seq<char>),
}

impl View for CliItem {
    type V = CliView;

    open spec fn view(&self) -> CliView {
        match self {
            CliItem::Load(s) => CliView::Load(s@),
            CliItem::Theme(s) => CliView::Theme(s@),
            CliItem::Screenshot(s) => CliView::Screenshot(s@),
            CliItem::Delay(s) => CliView::Delay(s@),
            CliItem::Zoom(s) => CliView::Zoom(s@),
            CliItem::Flag(f) => CliView::Flag(*f),
            CliItem::Help => CliView::Help,
            CliItem::Version => CliView::Version,
            CliItem::Fail(s) => CliView::Fail(s@),
        }
    }
}

/// The demonstration switch named `a`, if any.
pub open spec fn demo_flag(a: Seq<char>) -> Option<DemoFlag> {
    if a == "--dock-demo"@ {
        Some(DemoFlag::DockDemo)
    } else if a == "--open-settings"@ {
        Some(DemoFlag::OpenSettings)
    } else if a == "--tool-demo"@ {
        Some(DemoFlag::ToolDemo)
    } else if a == "--calc-demo"@ {
        Some(DemoFlag::CalcDemo)
    } else if a == "--view-demo"@ {
        Some(DemoFlag::ViewDemo)
    } else if a == "--dock-demo2"@ {
        Some(DemoFlag::DockDemo2)
    } else if a == "--catalog-demo"@ {
        Some(DemoFlag::CatalogDemo)
    } else if a == "--props-demo"@ {
        Some(DemoFlag::PropsDemo)
    } else if a == "--expand-layers"@ {
        Some(DemoFlag::ExpandLayers)
    } else {
        None
    }
}

/// The demonstration switch named `a`.
fn demo_flag_of(a: &str) -> (r: Option<DemoFlag>)
    ensures
        r == demo_flag(a@),
{
    if str_eq(a, "--dock-demo") {
        Some(DemoFlag::DockDemo)
    } else if str_eq(a, "--open-settings") {
        Some(DemoFlag::OpenSettings)
    } else if str_eq(a, "--tool-demo") {
        Some(DemoFlag::ToolDemo)
    } else if str_eq(a, "--calc-demo") {
        Some(DemoFlag::CalcDemo)
    } else if str_eq(a, "--view-demo") {
        Some(DemoFlag::ViewDemo)
    } else if str_eq(a, "--dock-demo2") {
        Some(DemoFlag::DockDemo2)
    } else if str_eq(a, "--catalog-demo") {
        Some(DemoFlag::CatalogDemo)
    } else if str_eq(a, "--props-demo") {
        Some(DemoFlag::PropsDemo)
    } else if str_eq(a, "--expand-layers") {
        Some(DemoFlag::ExpandLayers)
    } else {
        None
    }
}

/// An option that takes a value, with the message when the value is missing.
pub open spec fn valued(a: Seq<char>) -> Option<Seq<char>> {
    if a == "--load"@ {
        Some("--load 缺少文件路径"@)
    } else if a == "--theme"@ {
        Some("--theme 缺少取值（light|dark）"@)
    } else if a == "--screenshot"@ {
        Some("--screenshot 缺少输出路径"@)
    } else if a == "--delay"@ {
        Some("--delay 缺少秒数"@)
    } else if a == "--zoom"@ {
        Some("--zoom 缺少倍率（如 1.25）"@)
    } else {
        None
    }
}

/// The item of valued option `a` with value `v`.
pub open spec fn valued_item(a: Seq<char>, v: Seq<char>) -> CliView {
    if a == "--load"@ {
        CliView::Load(v)
    } else if a == "--theme"@ {
        CliView::Theme(v)
    } else if a == "--screenshot"@ {
        CliView::Screenshot(v)
    } else if a == "--delay"@ {
        CliView::Delay(v)
    } else {
        CliView::Zoom(v)
    }
}

/// The options read from `args[i..]`, in order, ending at help, version or
/// the first error.
pub open spec fn items_from(args: Seq<Seq<char>>, i: int) -> Seq<CliView>
    decreases args.len() - i,
{
    if i < 0 || i >= args.len() {
        seq![]
    } else {
        let a = args[i];
        if valued(a) is Some {
            if i + 1 < args.len() {
                seq![valued_item(a, args[i + 1])] + items_from(args, i + 2)
            } else {
                seq![CliView::Fail(valued(a).unwrap())]
            }
        } else if demo_flag(a) is Some {
            seq![CliView::Flag(demo_flag(a).unwrap())] + items_from(args, i + 1)
        } else if a == "-h"@ || a == "--help"@ {
            seq![CliView::Help]
        } else if a == "--version"@ {
            seq![CliView::Version]
        } else {
            seq![CliView::Fail("未知参数 '"@ + a + "'"@)]
        }
    }
}

/// The views of command-line items.
pub open spec fn cli_views(v: Seq<CliItem>) -> Seq<CliView> {
    v.map_values(|c: CliItem| c@)
}

/// Reads the command line (the arguments after the program name) into its
/// options, in order; reading stops after help, version or an error.
pub fn read_args(args: &Vec<String>) -> (r: Vec<CliItem>)
    ensures
        cli_views(r@) == items_from(crate::text::string_views(args@), 0),
{
    let ghost av = crate::text::string_views(args@);
    let n = args.len();
    let mut out: Vec<CliItem> = Vec::new();
    let mut i: usize = 0;
    assert(cli_views(out@) + items_from(av, 0) =~= items_from(av, 0));
    while i < n
        invariant
            n == args@.len(),
            av == crate::text::string_views(args@),
            i <= n + 1,
            cli_views(out@) + items_from(av, i as int) == items_from(av, 0),
        decreases n + 1 - i,
    {
        let a = args[i].as_str();
        assert(av[i as int] == a@);
        let ghost before = out@;
        let ghost rest = items_from(av, i as int);
        let missing = if str_eq(a, "--load") {
            Some("--load 缺少文件路径")
        } else if str_eq(a, "--theme") {
            Some("--theme 缺少取值（light|dark）")
        } else if str_eq(a, "--screenshot") {
            Some("--screenshot 缺少输出路径")
        } else if str_eq(a, "--delay") {
            Some("--delay 缺少秒数")
        } else if str_eq(a, "--zoom") {
            Some("--zoom 缺少倍率（如 1.25）")
        } else {
            None
        };
        if let Some(msg) = missing {
            if i + 1 < n {
                let v = args[i + 1].clone();
                assert(av[i + 1] == v@);
                let item = if str_eq(a, "--load") {
                    CliItem::Load(v)
                } else if str_eq(a, "--theme") {
                    CliItem::Theme(v)
                } else if str_eq(a, "--screenshot") {
                    CliItem::Screenshot(v)
                } else if str_eq(a, "--delay") {
                    CliItem::Delay(v)
                } else {
                    CliItem::Zoom(v)
                };
                out.push(item);
                assert(cli_views(out@) =~= cli_views(before).push(valued_item(a@, av[i + 1])));
                assert(rest =~= seq![valued_item(a@, av[i + 1])] + items_from(av, i + 2));
                i = i + 2;
            } else {
                out.push(CliItem::Fail(String::from_str(msg)));
                assert(cli_views(out@) =~= cli_views(before).push(CliView::Fail(valued(a@).unwrap())));
                assert(cli_views(out@) =~= items_from(av, 0));
                return out;
            }
        } else if let Some(f) = demo_flag_of(a) {
            out.push(CliItem::Flag(f));
            assert(cli_views(out@) =~= cli_views(before).push(CliView::Flag(f)));
            assert(rest =~= seq![CliView::Flag(f)] + items_from(av, i + 1));
            i = i + 1;
        } else if str_eq(a, "-h") || str_eq(a, "--help") {
            out.push(CliItem::Help);
            assert(cli_views(out@) =~= cli_views(before).push(CliView::Help));
            assert(cli_views(out@) =~= items_from(av, 0));
            return out;
        } else if str_eq(a, "--version") {
            out.push(CliItem::Version);
            assert(cli_views(out@) =~= cli_views(before).push(CliView::Version));
            assert(cli_views(out@) =~= items_from(av, 0));
            return out;
        } else {
            let mut m = String::from_str("未知参数 '");
            m.append(a);
            m.append("'");
            out.push(CliItem::Fail(m));
            assert(cli_views(out@) =~= cli_views(before).push(CliView::Fail("未知参数 '"@ + a@ + "'"@)));
            assert(cli_views(out@) =~= items_from(av, 0));
            return out;
        }
    }
    assert(items_from(av, i as int) =~= Seq::<CliView>::empty());
    assert(cli_views(out@) =~= cli_views(out@) + items_from(av, i as int));
    out
}

} // verus!
