use numa_hud::window::{PANEL_HEIGHT, PANEL_INITIAL_X, PANEL_INITIAL_Y, PANEL_WIDTH};
use numa_hud::window::{DraggableWindowConfig, WindowKind};

#[test]
fn test_constants_are_valid() {
    assert!(PANEL_WIDTH as f64 > 0.0);
    assert!(PANEL_HEIGHT as f64 > 0.0);
    assert!(PANEL_INITIAL_X as f64 >= 0.0);
    assert!(PANEL_INITIAL_Y as f64 >= 0.0);
}

#[test]
fn test_resize_window_parameters() {
    let width = 800.0;
    let height = 600.0;
    assert!(width > 0.0);
    assert!(height > 0.0);
}

#[test]
fn test_panel_constants_consistency() {
    assert!(PANEL_WIDTH > PANEL_INITIAL_X);
    assert!(PANEL_HEIGHT > PANEL_INITIAL_Y);
}

#[test]
fn test_tauri_app_structure() {
    assert!(PANEL_WIDTH as f64 > 0.0);
    assert!(PANEL_HEIGHT as f64 > 0.0);
    assert!(PANEL_INITIAL_X as f64 >= 0.0);
    assert!(PANEL_INITIAL_Y as f64 >= 0.0);
}

#[test]
fn test_ghost_panel_performance() {
    let start = std::time::Instant::now();
    for _ in 0..100 {
        let ghost = true;
        let alpha = if ghost { 0.0 } else { 1.0 };
        let ignores = ghost;
        assert_eq!(alpha, 0.0);
        assert_eq!(ignores, true);
    }
    let duration = start.elapsed();
    assert!(duration.as_millis() < 100);
}

#[test]
fn test_panel_configuration() {
    assert!(PANEL_WIDTH as f64 > 0.0 && (PANEL_WIDTH as f64) < 10000.0);
    assert!(PANEL_HEIGHT as f64 > 0.0 && (PANEL_HEIGHT as f64) < 10000.0);
    assert!(PANEL_INITIAL_X as f64 >= 0.0);
    assert!(PANEL_INITIAL_Y as f64 >= 0.0);
}

#[test]
fn test_regression_panel_dimensions() {
    const EXPECTED_WIDTH: f64 = 1072.0;
    const EXPECTED_HEIGHT: f64 = 618.0;
    assert_eq!(PANEL_WIDTH as f64, EXPECTED_WIDTH);
    assert_eq!(PANEL_HEIGHT as f64, EXPECTED_HEIGHT);
}

#[test]
fn test_panel_ghost_logic() {
    let test_cases = vec![(true, 0.0, true), (false, 1.0, false)];
    for (ghost, expected_alpha, expected_ignores) in test_cases {
        let alpha = if ghost { 0.0 } else { 1.0 };
        let ignores = ghost;
        assert_eq!(alpha, expected_alpha);
        assert_eq!(ignores, expected_ignores);
    }
}

#[test]
fn test_window_management_patterns() {
    let window_names = vec![WindowKind::Hud.label(), WindowKind::Panel.label()];
    assert_eq!(window_names, vec!["hud", "panel"]);
    for name in window_names {
        assert!(!name.is_empty());
        assert!(name.len() < 50);
    }
}

#[test]
fn window_labels_round_trip() {
    for k in [
        WindowKind::Hud,
        WindowKind::Panel,
        WindowKind::Response,
        WindowKind::Input,
        WindowKind::Context,
    ] {
        assert_eq!(WindowKind::from_label(k.label()), Some(k));
    }
    assert_eq!(WindowKind::from_label("sidebar"), None);
    assert!(WindowKind::Input.is_dockable());
    assert!(!WindowKind::Panel.is_dockable());
}

#[test]
fn window_configs_and_urls() {
    let input = DraggableWindowConfig::for_input();
    assert_eq!((input.width, input.height), (450, 120));
    assert!(input.resizable);
    assert_eq!(input.url(), "http://localhost:1420/#/input");
    let panel = DraggableWindowConfig::for_kind(WindowKind::Panel).unwrap();
    assert_eq!((panel.width, panel.height, panel.initial_x, panel.initial_y), (1072, 618, 200, 490));
    assert!(!panel.resizable);
    assert_eq!(panel.url(), "http://localhost:1420/#/panel");
    assert!(DraggableWindowConfig::for_kind(WindowKind::Hud).is_none());
    for k in [WindowKind::Panel, WindowKind::Response, WindowKind::Input, WindowKind::Context] {
        let c = DraggableWindowConfig::for_kind(k).unwrap();
        assert!(!c.decorations && c.transparent && c.always_on_top && c.child_of_hud);
        assert!(!c.visible && !c.minimizable && !c.closable && c.skip_taskbar);
    }
}
