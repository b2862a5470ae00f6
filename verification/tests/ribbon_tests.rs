use kanyu_shell::commands;
use kanyu_shell::commands::AppSnapshot;
use kanyu_shell::ribbon::{layout_of, Ribbon, RibbonAction, RibbonTab};

#[test]
fn every_tab_has_groups_and_buttons() {
    for tab in RibbonTab::ALL {
        let groups = layout_of(tab);
        assert!(!groups.is_empty(), "{tab:?} 无命令组");
        for g in groups {
            assert!(!g.commands.is_empty(), "{tab:?} 组无按钮");
        }
    }
}

#[test]
fn layout_ids_resolve_in_registry() {
    for tab in RibbonTab::ALL {
        for g in layout_of(tab) {
            for id in g.commands {
                assert!(commands::find(id).is_some(), "未登记的命令 id: {id}");
            }
        }
    }
}

#[test]
fn every_action_reachable_from_some_tab() {
    let actions: Vec<RibbonAction> = RibbonTab::ALL
        .iter()
        .flat_map(|t| layout_of(*t))
        .flat_map(|g| g.commands)
        .map(|id| commands::find(id).unwrap().action)
        .collect();
    for required in [
        RibbonAction::OpenData,
        RibbonAction::OpenProject,
        RibbonAction::SaveProject,
        RibbonAction::CycleMapTheme,
        RibbonAction::BufferDialog,
        RibbonAction::ExportMapDialog,
        RibbonAction::EstateMapDialog,
        RibbonAction::SkillHotload,
        RibbonAction::About,
    ] {
        assert!(actions.contains(&required), "动作不可达: {required:?}");
    }
}

#[test]
fn tab_labels_are_distinct() {
    let labels: Vec<&str> = RibbonTab::ALL.iter().map(|t| t.label()).collect();
    for i in 0..labels.len() {
        assert!(!labels[i].is_empty());
        for j in (i + 1)..labels.len() {
            assert_ne!(labels[i], labels[j]);
        }
    }
}

#[test]
fn button_clicks_follow_conditions() {
    let empty = AppSnapshot::default();
    let loaded = AppSnapshot { layer_count: 1, ..Default::default() };
    assert_eq!(Ribbon::click_button("about", &empty), Some(RibbonAction::About));
    assert_eq!(Ribbon::click_button("query", &empty), None);
    assert_eq!(Ribbon::click_button("query", &loaded), Some(RibbonAction::QueryDialog));
    assert_eq!(Ribbon::click_button("layer_info", &loaded), None);
    assert_eq!(Ribbon::click_button("no_such_command", &loaded), None);
    assert_eq!(Ribbon::click_quick("settings"), Some(RibbonAction::SettingsDialog));
    assert_eq!(Ribbon::click_quick("no_such_command"), None);
    assert_eq!(Ribbon::click_undo(&empty), None);
    let undoable = AppSnapshot { can_undo: true, ..Default::default() };
    assert_eq!(Ribbon::click_undo(&undoable), Some(RibbonAction::Undo));
    assert_eq!(Ribbon::click_redo(&undoable), None);
    let mut r = Ribbon::default();
    r.select_tab(RibbonTab::Edit);
    assert_eq!(r.active, RibbonTab::Edit);
}
