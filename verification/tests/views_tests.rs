use kanyu_shell::map_theme::MapThemeMode;
use kanyu_shell::mapview::{adjust_active_after_remove, ViewDim};

#[test]
fn dim_labels_and_parse() {
    assert_eq!(ViewDim::TwoD.as_str(), "2d");
    assert_eq!(ViewDim::ThreeD.as_str(), "3d");
    assert_eq!(ViewDim::parse("3d"), ViewDim::ThreeD);
    assert_eq!(ViewDim::parse("2d"), ViewDim::TwoD);
    assert_eq!(ViewDim::parse("未知"), ViewDim::TwoD);
    assert_eq!(ViewDim::ThreeD.create_label(), "三维场景");
}

#[test]
fn dim_labels_and_keys_roundtrip() {
    for d in [ViewDim::TwoD, ViewDim::ThreeD] {
        assert_eq!(ViewDim::parse(d.as_str()), d);
    }
    assert_eq!(ViewDim::TwoD.label(), "二维");
    assert_eq!(ViewDim::TwoD.create_label(), "二维地图框");
}

#[test]
fn adjust_active_after_remove_cases() {
    assert_eq!(adjust_active_after_remove(Some(2), 2), None);
    assert_eq!(adjust_active_after_remove(Some(3), 1), Some(2));
    assert_eq!(adjust_active_after_remove(Some(0), 2), Some(0));
    assert_eq!(adjust_active_after_remove(None, 1), None);
}

#[test]
fn active_entry_survives_removal() {
    let mut v = vec!["a", "b", "c", "d"];
    let active = Some(3usize);
    let name = v[3];
    v.remove(1);
    let after = adjust_active_after_remove(active, 1).unwrap();
    assert_eq!(v[after], name);
}

#[test]
fn map_theme_cycles_and_roundtrips() {
    let m = MapThemeMode::FixedLight;
    assert_eq!(m.next(), MapThemeMode::FixedDark);
    assert_eq!(m.next().next(), MapThemeMode::FollowUi);
    assert_eq!(m.next().next().next(), m);
    for mode in [MapThemeMode::FixedLight, MapThemeMode::FixedDark, MapThemeMode::FollowUi] {
        assert_eq!(MapThemeMode::parse(mode.as_str()), mode);
    }
    assert_eq!(MapThemeMode::parse("bogus"), MapThemeMode::FixedLight);
    assert_eq!(MapThemeMode::FollowUi.label(), "地图: 跟随界面");
}

#[test]
fn map_theme_decides_darkness() {
    assert!(!MapThemeMode::FixedLight.map_is_dark(true));
    assert!(MapThemeMode::FixedDark.map_is_dark(false));
    assert!(MapThemeMode::FollowUi.map_is_dark(true));
    assert!(!MapThemeMode::FollowUi.map_is_dark(false));
}

fn frames(n: usize) -> kanyu_shell::mapview::FrameList {
    kanyu_shell::mapview::FrameList {
        frames: (0..n)
            .map(|i| kanyu_shell::mapview::FrameEntry { title: format!("框{i}"), layer_count: i })
            .collect(),
        active: Some(0),
    }
}

#[test]
fn frame_deletion_guards_and_message() {
    type D = kanyu_shell::mapview::FrameDeletion;
    let mut f = frames(3);
    assert!(matches!(f.delete_frame(5, false, 9), D::Ignored));
    assert!(matches!(f.delete_frame(0, false, 9), D::Refused(m) if m == "默认地图框「地图」不可删除"));
    assert!(matches!(f.delete_frame(1, true, 9), D::Refused(m) if m.starts_with("编辑会话进行中")));
    match f.delete_frame(2, false, 9) {
        D::Deleted { message, fall_back_to_main } => {
            assert_eq!(message, "已删除地图框「框2」（含 2 个图层）");
            assert!(!fall_back_to_main);
        }
        _ => panic!("expected a deletion"),
    }
    assert_eq!(f.frames.len(), 2);
    f.active = Some(1);
    match f.delete_frame(1, false, 7) {
        D::Deleted { message, fall_back_to_main } => {
            assert_eq!(message, "已删除地图框「框1」（含 7 个图层）");
            assert!(fall_back_to_main);
        }
        _ => panic!("expected a deletion"),
    }
    assert_eq!(f.active, None);
    assert!(matches!(f.delete_frame(0, false, 0), D::Refused(_)));
    let mut one = frames(1);
    one.frames[0].title = "x".into();
    assert!(matches!(one.delete_frame(0, false, 0), D::Refused(m) if m == "默认地图框「地图」不可删除"));
}
