use numa_hud::dock::{
    dock_event, DockAnchor, DockEffect, DockPosition, DockState, InputWindowState,
};
use numa_hud::geometry::RectI;
use numa_hud::placement::{
    debug_panel_position, manual_offset_for_scale, panel_position, response_below_input_position,
    response_position,
};
use numa_hud::stealth::{
    creation_capture, force_stealth_on, legacy_event, make_windows_click_through, stealth_commands, stealth_settings,
    toggle_stealth, NSWindowSharingType, StealthState,
};
use numa_hud::window::{
    check_snap_distance, check_snap_distance_for_window, WindowError, WindowKind, WindowRegistry,
};

#[test]
fn ensure_window_creates_once() {
    let mut reg = WindowRegistry::with_hud();
    let first = reg.ensure_window(WindowKind::Panel).unwrap();
    assert!(first.created);
    assert_eq!(first.handle, 1);
    let second = reg.ensure_window(WindowKind::Panel).unwrap();
    assert!(!second.created);
    assert_eq!(second.handle, first.handle);
    assert_eq!(reg.len(), 2);
    let hud = reg.ensure_window(WindowKind::Hud).unwrap();
    assert_eq!((hud.handle, hud.created), (0, false));
}

#[test]
fn ensure_window_needs_the_hud() {
    let mut reg = WindowRegistry::new();
    let e = reg.ensure_window(WindowKind::Input).unwrap_err();
    assert!(matches!(e, WindowError::HudNotFound));
    assert_eq!(e.message(), "HUD window not found");
    assert_eq!(reg.len(), 0);
}

#[test]
fn dock_round_trip() {
    let mut st = InputWindowState::new();
    assert_eq!(st.undock(), DockEffect::Detach);
    assert_eq!(st.dock(), DockEffect::Attach);
    let docked = st.dock_state;
    assert_eq!(st.undock(), DockEffect::Detach);
    assert_eq!(st.undock(), DockEffect::Unchanged);
    assert_eq!(st.dock(), DockEffect::Attach);
    assert_eq!(st.dock(), DockEffect::Unchanged);
    assert_eq!(st.dock_state, docked);
    assert_eq!(
        st.dock_state,
        DockState::Docked { anchor: DockAnchor::BelowCenter, offset_x: 0, offset_y: 20 }
    );
    assert_eq!(DockAnchor::BelowCenter.name(), "below-center");
}

#[test]
fn dock_round_trip_keeps_a_non_home_anchor() {
    let mut st = InputWindowState::new();
    st.dock_state = DockState::Docked { anchor: DockAnchor::BelowLeft, offset_x: -30, offset_y: 12 };
    assert_eq!(st.dock(), DockEffect::Unchanged);
    let first = st.dock_state;
    assert_eq!(st.undock(), DockEffect::Detach);
    assert_eq!(
        st.dock_position,
        DockPosition { anchor: DockAnchor::BelowLeft, offset_x: -30, offset_y: 12 }
    );
    assert_eq!(st.dock(), DockEffect::Attach);
    assert_eq!(st.dock_state, first);
}

#[test]
fn dock_events_name_the_window() {
    assert_eq!(dock_event(WindowKind::Input, true), "input:docked");
    assert_eq!(dock_event(WindowKind::Context, false), "context:undocked");
}

#[test]
fn stealth_toggle_sets_every_tracked_window() {
    let mut reg = WindowRegistry::with_hud();
    reg.ensure_window(WindowKind::Response).unwrap();
    reg.ensure_window(WindowKind::Panel).unwrap();
    reg.ensure_window(WindowKind::Input).unwrap();
    let mut state = StealthState::new();
    let before = state.is_active();
    let change = toggle_stealth(&mut state, &reg);
    assert_eq!(state.is_active(), !before);
    assert!(change.active);
    assert_eq!(change.legacy_event, "stealth-activated");
    assert_eq!(change.source, "api_toggle");
    let windows: Vec<WindowKind> = change.commands.iter().map(|c| c.window).collect();
    assert_eq!(windows, vec![WindowKind::Hud, WindowKind::Panel, WindowKind::Input]);
    for c in &change.commands {
        assert_eq!(c.settings.sharing, NSWindowSharingType::NotShared);
        assert!(!c.settings.enable_clicks);
    }
    let back = toggle_stealth(&mut state, &reg);
    assert!(!back.active);
    assert_eq!(back.legacy_event, "stealth-deactivated");
    for c in &back.commands {
        assert_eq!(c.settings.sharing.raw(), 2);
        assert!(c.settings.enable_clicks);
    }
}

#[test]
fn forced_stealth_and_click_through() {
    let reg = WindowRegistry::with_hud();
    let mut state = StealthState::new();
    state.force_on();
    let change = force_stealth_on(&mut state, &reg);
    assert!(state.is_active() && change.active);
    assert_eq!(change.source, "force_startup");
    assert_eq!(change.commands.len(), 1);
    let clicks = make_windows_click_through(&reg);
    assert_eq!(clicks[0].settings, stealth_settings(false));
    assert_eq!(stealth_settings(true).sharing.raw(), 0);
    assert_eq!(creation_capture(&state), Some(stealth_settings(true)));
    assert_eq!(creation_capture(&StealthState::new()), None);
    assert_eq!(legacy_event(true), "stealth-activated");
    assert!(stealth_commands(true, &WindowRegistry::new()).is_empty());
}

#[test]
fn snap_check_prefers_input() {
    let hud = RectI { x: 0, y: 0, w: 400, h: 60 };
    let input = RectI { x: 100, y: 60, w: 300, h: 100 };
    let context = RectI { x: 500, y: 500, w: 100, h: 100 };
    let r = check_snap_distance(Some(hud), Some(input), Some(context)).unwrap();
    assert_eq!(r.window, WindowKind::Input);
    assert!(r.should_snap);
    assert_eq!((r.window_rect.left, r.window_rect.right, r.window_rect.top, r.window_rect.bottom), (100, 400, 60, 160));
    assert_eq!((r.hud_rect.right, r.hud_rect.bottom), (400, 60));
    let r = check_snap_distance(Some(hud), None, Some(context)).unwrap();
    assert_eq!(r.window, WindowKind::Context);
    assert!(!r.should_snap);
    assert!(matches!(check_snap_distance(Some(hud), None, None), Err(WindowError::NoVisibleDockable)));
    assert!(matches!(check_snap_distance(None, Some(input), None), Err(WindowError::HudNotFound)));
}

#[test]
fn snap_check_for_named_window() {
    let hud = RectI { x: 0, y: 0, w: 400, h: 60 };
    let ctx = RectI { x: 400, y: 0, w: 100, h: 10 };
    let r = check_snap_distance_for_window(WindowKind::Context, Some(ctx), Some(hud)).unwrap();
    assert!(r.should_snap);
    let e = check_snap_distance_for_window(WindowKind::Context, None, Some(hud)).unwrap_err();
    assert_eq!(e.message(), "context window not found");
    assert!(matches!(
        check_snap_distance_for_window(WindowKind::Context, Some(ctx), None),
        Err(WindowError::HudNotFound)
    ));
}

#[test]
fn panel_placement_per_display() {
    // HUD at physical (1000, 50), 800 x 100 pixels, on a 2x display at the origin
    let hud = RectI { x: 1000, y: 50, w: 800, h: 100 };
    assert_eq!(manual_offset_for_scale(200), 0);
    assert_eq!(manual_offset_for_scale(100), -20);
    assert_eq!(manual_offset_for_scale(150), -10);
    assert_eq!(panel_position(&hud, 0, 0, 200), (328, 190));
    assert_eq!(panel_position(&hud, 0, 0, 100), (844, 170));
    // a monitor placed to the right of the main one
    let moved = RectI { x: 2920, y: 50, w: 800, h: 100 };
    assert_eq!(panel_position(&moved, 1920, 0, 200), (2248, 190));
    assert_eq!(response_position(&hud, 0, 0, 200), (800, 190));
    assert_eq!(response_below_input_position(&hud, 0, 0, 200), (800, 450));
    assert_eq!(debug_panel_position(&hud, 200), (-122, 190));
}

#[test]
fn placement_rounds_halves_away_from_zero() {
    // 1.5x: (301 - 1072 * 1.5) / 2 - 10 * 1.5 = -668.5 -> -669
    let hud = RectI { x: 0, y: 0, w: 301, h: 0 };
    assert_eq!(panel_position(&hud, 0, 0, 150), (-669, 30));
    let hud = RectI { x: 0, y: 0, w: 1, h: 1 };
    // 1x: (1 - 1072)/2 - 20 = -555.5 -> -556
    assert_eq!(panel_position(&hud, 0, 0, 100), (-556, 21));
}
