use std::path::PathBuf;

use kanyu_shell::icons::Icon;

use kanyu_shell::catalog::{
    categories, children_from_entries, human_size, node_visual, CatalogNode, CatalogPanel, FrameRow,
    LayoutRow,
    DirEntryInfo, GB, KB,
    MB,
};

#[test]
fn categories_fixed_order_and_counts() {
    let cats = categories(3, 2, true, 1, 6);
    let names: Vec<&str> = cats.iter().map(|c| c.name).collect();
    assert_eq!(names, vec!["地图框", "布局框", "数据库", "服务链接", "本机数据"]);
    assert_eq!(cats[0].count, 3);
    assert_eq!(cats[1].count, 2);
    assert_eq!(cats[2].count, 1);
    assert_eq!(cats[3].count, 1);
    assert!(cats[3].placeholder.is_some());
    assert_eq!(cats[4].count, 6);
    let cats2 = categories(1, 0, false, 0, 0);
    assert_eq!(cats2[2].count, 0);
    assert_eq!(cats2[3].count, 0);
}

#[test]
fn human_size_scales() {
    assert_eq!(human_size(512), "512 B");
    assert_eq!(human_size(2048), "2.0 KB");
    assert_eq!(human_size(3 * MB), "3.0 MB");
    assert_eq!(human_size(2 * GB), "2.0 GB");
}

#[test]
fn human_size_rounds_to_one_decimal() {
    assert_eq!(human_size(0), "0 B");
    assert_eq!(human_size(KB - 1), "1023 B");
    assert_eq!(human_size(KB), "1.0 KB");
    // 1536 B is exactly 1.5 KB.
    assert_eq!(human_size(1536), "1.5 KB");
    // 1.25 KB is a tie: rounded to the even tenth.
    assert_eq!(human_size(1280), "1.2 KB");
    // 1.35 KB (1382.4 B is not whole): 1382 B is 1.3496… KB.
    assert_eq!(human_size(1382), "1.3 KB");
    assert_eq!(human_size(1383), "1.4 KB");
    assert_eq!(human_size(MB - 1), "1024.0 KB");
    assert_eq!(human_size(5 * GB + GB / 2), "5.5 GB");
}

fn entry(name: &str, is_dir: bool, size: u64) -> DirEntryInfo {
    DirEntryInfo {
        name: name.to_string(),
        path: PathBuf::from("/data").join(name),
        is_dir,
        size,
    }
}

#[test]
fn read_children_filters_and_sorts() {
    let entries = vec![
        entry("a.geojson", false, 2),
        entry("b.txt", false, 1),
        entry("c.kdb", false, 1),
        entry("sub", true, 0),
    ];
    let children = children_from_entries(entries);
    let names: Vec<&str> = children.iter().map(|n| n.name.as_str()).collect();
    assert!(names.contains(&"sub"));
    assert!(names.contains(&"a.geojson"));
    assert!(names.contains(&"c.kdb"));
    assert!(!names.contains(&"b.txt"), "非数据文件应过滤");
    assert_eq!(children[0].name, "sub", "目录排前");
}

#[test]
fn children_sorted_case_insensitively_dirs_first() {
    let entries = vec![
        entry("Zeta.SHP", false, 10),
        entry(".hidden.shp", false, 10),
        entry("beta", true, 0),
        entry("Alpha", true, 0),
        entry("alpha.csv", false, 7),
        entry("notes", false, 3),
        entry(".git", true, 0),
        entry("archive.tar", false, 3),
    ];
    let children = children_from_entries(entries);
    let names: Vec<&str> = children.iter().map(|n| n.name.as_str()).collect();
    assert_eq!(names, vec!["Alpha", "beta", "alpha.csv", "Zeta.SHP"]);
    assert!(children[0].is_dir && children[1].is_dir);
    assert_eq!(children[2].size, Some(7));
    assert_eq!(children[0].size, None);
    assert!(!children[3].expanded && children[3].children.is_none());
}

#[test]
fn node_at_mut_walks_index_path() {
    let mut roots = vec![CatalogNode::dir(PathBuf::from("/a"), "a".to_string())];
    roots[0].children = Some(vec![CatalogNode::dir(PathBuf::from("/a/b"), "b".to_string())]);
    let node = CatalogPanel::node_at_mut(&mut roots, &[0, 0]).unwrap();
    assert_eq!(node.name, "b");
    node.expanded = true;
    assert!(roots[0].children.as_ref().unwrap()[0].expanded);
}

#[test]
fn node_at_mut_rejects_bad_paths() {
    let mut roots = vec![CatalogNode::dir(PathBuf::from("/a"), "a".to_string())];
    assert!(CatalogPanel::node_at_mut(&mut roots, &[1]).is_none());
    assert!(CatalogPanel::node_at_mut(&mut roots, &[0, 0]).is_none());
    assert!(CatalogPanel::node_at_mut(&mut roots, &[]).is_none());
}

#[test]
fn human_size_agrees_with_float_formatting() {
    let float_size = |bytes: u64| -> String {
        if bytes >= GB {
            format!("{:.1} GB", bytes as f64 / GB as f64)
        } else if bytes >= MB {
            format!("{:.1} MB", bytes as f64 / MB as f64)
        } else if bytes >= KB {
            format!("{:.1} KB", bytes as f64 / KB as f64)
        } else {
            format!("{bytes} B")
        }
    };
    for bytes in 0..(70 * KB) {
        assert_eq!(human_size(bytes), float_size(bytes), "{bytes}");
    }
    for k in 0..5000u64 {
        let bytes = MB + k * 104_857 + k % 7;
        assert_eq!(human_size(bytes), float_size(bytes), "{bytes}");
        let big = GB + k * 107_374_182 + k % 11;
        assert_eq!(human_size(big), float_size(big), "{big}");
    }
}

fn listing(p: &PathBuf) -> Result<Vec<CatalogNode>, String> {
    Ok(vec![
        CatalogNode::file(p.join("a.shp"), "a.shp".to_string(), 3),
        CatalogNode::dir(p.join("d"), "d".to_string()),
        CatalogNode::dir(p.join("e"), "e".to_string()),
    ])
}

#[test]
fn demo_expand_first_opens_first_root_and_first_subdirectory() {
    let mut panel = CatalogPanel::new(vec![
        CatalogNode::dir(PathBuf::from("/r"), "r".to_string()),
        CatalogNode::dir(PathBuf::from("/s"), "s".to_string()),
    ]);
    assert_eq!(panel.expanded, [false, false, false, false, true]);
    panel.demo_expand_first(&listing);
    assert_eq!(panel.expanded, [true; 5]);
    let r = &panel.roots[0];
    assert!(r.expanded);
    let cs = r.children.as_ref().unwrap();
    assert_eq!(cs.len(), 3);
    assert!(!cs[0].expanded);
    assert!(cs[1].expanded && cs[1].children.as_ref().unwrap().len() == 3);
    assert!(!cs[2].expanded && cs[2].children.is_none());
    assert!(!panel.roots[1].expanded && panel.roots[1].children.is_none());
}

#[test]
fn toggling_reads_once_and_reports_failures() {
    let mut panel = CatalogPanel::new(vec![CatalogNode::dir(PathBuf::from("/r"), "r".to_string())]);
    let failing = |p: &PathBuf| -> Result<Vec<CatalogNode>, String> {
        Err(format!("无法读取 {}", p.display()))
    };
    panel.apply_toggle(&[0], &failing);
    assert!(panel.roots[0].expanded);
    assert!(panel.roots[0].children.is_none());
    assert_eq!(panel.note.as_deref(), Some("无法读取 /r"));
    panel.apply_toggle(&[0], &failing);
    assert!(!panel.roots[0].expanded);
    panel.apply_toggle(&[0], &listing);
    assert_eq!(panel.roots[0].children.as_ref().unwrap().len(), 3);
    panel.apply_toggle(&[0], &listing);
    panel.apply_toggle(&[0], &failing);
    assert!(panel.roots[0].expanded);
    assert_eq!(panel.roots[0].children.as_ref().unwrap().len(), 3);
    panel.apply_toggle(&[0, 1], &listing);
    assert!(panel.roots[0].children.as_ref().unwrap()[1].expanded);
    panel.apply_toggle(&[4], &listing);
    panel.toggle_category(0);
    assert_eq!(panel.expanded, [true, false, false, false, true]);
}

#[test]
fn node_icons_by_kind_and_extension() {
    let f = |name: &str| CatalogNode::file(PathBuf::from(name), name.to_string(), 1);
    assert_eq!(
        node_visual(&CatalogNode::dir(PathBuf::from("/d"), "d.kyu".to_string())),
        (Icon::FolderPlain, [0xD4, 0xA8, 0x43])
    );
    assert_eq!(node_visual(&f("city.KYU")), (Icon::Project, [0xC7, 0x5B, 0x3A]));
    assert_eq!(node_visual(&f("store.kdb")), (Icon::Database, [0x2D, 0x6A, 0x5E]));
    assert_eq!(node_visual(&f("plan.dxf")).0, Icon::Cad);
    assert_eq!(node_visual(&f("plan.Dwg")).0, Icon::Cad);
    assert_eq!(node_visual(&f("roads.shp")), (Icon::Layers, [0x2D, 0x6A, 0x5E]));
    assert_eq!(node_visual(&f("noext")).0, Icon::Layers);
}

#[test]
fn frame_and_layout_rows() {
    let open = FrameRow { index: 0, title: "地图".into(), dim_label: "二维", open: true };
    assert_eq!(open.label(), "地图（二维）");
    assert_eq!(open.hint(), "单击激活；右键重命名/删除");
    let closed = FrameRow { index: 2, title: "场景".into(), dim_label: "三维", open: false };
    assert_eq!(closed.label(), "场景（三维·已关闭）");
    assert_eq!(closed.hint(), "已关闭——单击重新打开；右键重命名/删除");
    assert_eq!(LayoutRow { title: "布局1".into(), open: true }.label(), "布局1");
    assert_eq!(LayoutRow { title: "布局1".into(), open: false }.label(), "布局1（已关闭）");
}
