use kanyu_shell::dock::{
    drop_zone_from_hits, resolve_drop_zone, DockState, DockZone, PanelId,
};

#[test]
fn default_layout_matches_current_app() {
    let d = DockState::default();
    assert_eq!(d.panels_in(DockZone::Left), vec![PanelId::Catalog, PanelId::Layers]);
    assert_eq!(d.panels_in(DockZone::Bottom), vec![PanelId::Console, PanelId::AiChat]);
    assert!(d.panels_in(DockZone::Right).is_empty());
    assert_eq!(d.active_in(DockZone::Left), Some(PanelId::Layers));
    assert_eq!(d.active_in(DockZone::Bottom), Some(PanelId::Console));
    assert!(!d.zone_has_panels(DockZone::Right));
}

#[test]
fn close_active_tab_falls_back() {
    let mut d = DockState::default();
    d.close_panel(PanelId::Layers);
    assert_eq!(d.active_in(DockZone::Left), Some(PanelId::Catalog));
    d.close_panel(PanelId::Catalog);
    assert_eq!(d.active_in(DockZone::Left), None);
    assert!(!d.zone_has_panels(DockZone::Left));
}

#[test]
fn dock_to_moves_and_activates() {
    let mut d = DockState::default();
    d.dock_to(PanelId::AiChat, DockZone::Right);
    assert_eq!(d.panels_in(DockZone::Right), vec![PanelId::AiChat]);
    assert_eq!(d.panels_in(DockZone::Bottom), vec![PanelId::Console]);
    assert_eq!(d.active_in(DockZone::Right), Some(PanelId::AiChat));
    d.dock_to(PanelId::AiChat, DockZone::Bottom);
    assert_eq!(d.panels_in(DockZone::Bottom), vec![PanelId::Console, PanelId::AiChat]);
}

#[test]
fn float_and_reopen() {
    let mut d = DockState::default();
    d.float(PanelId::Console);
    assert!(d.is_floating(PanelId::Console));
    assert_eq!(d.active_in(DockZone::Bottom), Some(PanelId::AiChat));
    d.close_panel(PanelId::Console);
    assert!(!d.is_open(PanelId::Console));
    assert!(!d.is_floating(PanelId::Console));
    d.open_panel(PanelId::Console);
    assert!(d.is_floating(PanelId::Console));
    d.dock_to(PanelId::Console, DockZone::Left);
    assert_eq!(d.zone_of(PanelId::Console), DockZone::Left);
}

#[test]
fn set_all_open_toggles_everything() {
    let mut d = DockState::default();
    d.set_all_open(false);
    assert!(!d.zone_has_panels(DockZone::Left));
    assert!(!d.zone_has_panels(DockZone::Bottom));
    assert!(PanelId::ALL.iter().all(|&id| !d.is_open(id)));
    d.set_all_open(true);
    assert!(PanelId::ALL.iter().all(|&id| d.is_open(id)));
}

#[test]
fn set_active_with_a_foreign_panel_falls_back_to_the_first_tab() {
    let mut d = DockState::default();
    d.set_active(DockZone::Left, PanelId::Console);
    assert_eq!(d.active_in(DockZone::Left), Some(PanelId::Catalog));
    d.set_active(DockZone::Left, PanelId::Layers);
    assert_eq!(d.active_in(DockZone::Left), Some(PanelId::Layers));
    d.set_active(DockZone::Floating, PanelId::Layers);
    assert_eq!(d.active_in(DockZone::Left), Some(PanelId::Layers));
}

#[test]
fn drop_zone_decisions() {
    assert_eq!(drop_zone_from_hits(false, true, false, false), None);
    assert_eq!(drop_zone_from_hits(true, true, false, true), Some(DockZone::Left));
    assert_eq!(drop_zone_from_hits(true, false, true, true), Some(DockZone::Right));
    assert_eq!(drop_zone_from_hits(true, false, false, true), Some(DockZone::Bottom));
    assert_eq!(drop_zone_from_hits(true, false, false, false), Some(DockZone::Floating));
    let over_left = Some((DockZone::Left, true));
    assert_eq!(resolve_drop_zone(Some(DockZone::Floating), over_left), Some(DockZone::Left));
    assert_eq!(
        resolve_drop_zone(Some(DockZone::Floating), Some((DockZone::Left, false))),
        Some(DockZone::Floating)
    );
    assert_eq!(resolve_drop_zone(Some(DockZone::Right), over_left), Some(DockZone::Right));
    assert_eq!(resolve_drop_zone(Some(DockZone::Floating), None), Some(DockZone::Floating));
    assert_eq!(resolve_drop_zone(None, over_left), None);
}

#[test]
fn panel_metadata() {
    for (i, id) in PanelId::ALL.iter().enumerate() {
        assert_eq!(id.index(), i);
        assert!(!id.title().is_empty());
    }
    assert_eq!(PanelId::Catalog.default_zone(), DockZone::Left);
    assert_eq!(DockZone::Bottom.docked_index(), 2);
}

#[test]
fn toggle_panel_flips_and_remembers_the_zone() {
    let mut d = DockState::default();
    d.toggle_panel(PanelId::Toolbox);
    assert!(d.is_open(PanelId::Toolbox));
    assert_eq!(d.active_in(DockZone::Right), Some(PanelId::Toolbox));
    d.toggle_panel(PanelId::Toolbox);
    assert!(!d.is_open(PanelId::Toolbox));
    assert_eq!(d.zone_of(PanelId::Toolbox), DockZone::Right);
    d.float(PanelId::Layers);
    d.toggle_panel(PanelId::Layers);
    d.toggle_panel(PanelId::Layers);
    assert!(d.is_floating(PanelId::Layers));
}
