use std::collections::HashSet;

use kanyu_shell::commands::{
    commands, find, match_shortcut, AppShortcut, AppSnapshot, Condition, ShortcutKey, QAT_COMMANDS,
};
use kanyu_shell::ribbon::RibbonAction;

#[test]
fn ids_are_unique() {
    let mut seen = HashSet::new();
    for c in commands() {
        assert!(seen.insert(c.id), "命令 id 重复: {}", c.id);
        assert!(!c.title.is_empty() && !c.desc_body.is_empty(), "{} 缺文案", c.id);
    }
}

#[test]
fn find_works() {
    assert_eq!(find("buffer").unwrap().action, RibbonAction::BufferDialog);
    assert!(find("nope").is_none());
}

#[test]
fn find_returns_the_registered_entry() {
    let c = find("estate_map").unwrap();
    assert_eq!(c.id, "estate_map");
    assert_eq!(c.action, RibbonAction::EstateMapDialog);
    assert_eq!(c.enabled, Condition::HasLayers);
    assert!(find("").is_none());
    assert!(find("Buffer").is_none());
}

#[test]
fn shortcut_matching() {
    assert_eq!(match_shortcut(ShortcutKey::Z, true, false), Some(AppShortcut::Undo));
    assert_eq!(match_shortcut(ShortcutKey::Z, true, true), Some(AppShortcut::Redo));
    assert_eq!(match_shortcut(ShortcutKey::Y, true, false), Some(AppShortcut::Redo));
    assert_eq!(match_shortcut(ShortcutKey::S, true, false), Some(AppShortcut::SaveProject));
    assert_eq!(match_shortcut(ShortcutKey::Z, false, false), None);
    assert_eq!(match_shortcut(ShortcutKey::Other, true, false), None);
}

#[test]
fn enabled_predicates() {
    let empty = AppSnapshot::default();
    let with_layers = AppSnapshot { layer_count: 2, has_selection: false, ..Default::default() };
    let with_sel = AppSnapshot { layer_count: 2, has_selection: true, ..Default::default() };
    let e = |id: &str, s: &AppSnapshot| find(id).unwrap().enabled.holds(s);
    assert!(e("open_data", &empty));
    assert!(!e("buffer", &empty));
    assert!(e("buffer", &with_layers));
    assert!(!e("layer_info", &with_layers));
    assert!(e("layer_info", &with_sel));
    assert!(!e("topology", &with_layers));
    assert!(e("topology", &with_sel));
}

#[test]
fn edit_conditions_follow_the_session() {
    let idle = AppSnapshot { layer_count: 1, has_selection: true, ..Default::default() };
    let editing = AppSnapshot { editing: true, can_undo: true, ..idle };
    let e = |id: &str, s: &AppSnapshot| find(id).unwrap().enabled.holds(s);
    assert!(e("start_edit", &idle));
    assert!(!e("start_edit", &editing));
    assert!(!e("save_edit", &idle));
    assert!(e("save_edit", &editing));
    assert!(e("undo", &editing));
    assert!(!e("redo", &editing));
}

#[test]
fn qat_commands_exist() {
    for id in QAT_COMMANDS {
        assert!(find(id).is_some(), "QAT 命令未登记: {id}");
    }
}
