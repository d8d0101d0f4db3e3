use mizu::settings::{Settings, ThemeName};
use mizu::state::{push_cap, App, KeyOutcome, HISTORY_LEN};
use mizu::theme::MizuTheme;

fn make_app() -> App {
    App::new(Settings::default())
}

#[test]
fn tab_defaults_to_zero() {
    assert_eq!(make_app().active_tab, 0);
}

#[test]
fn set_tab_valid() {
    let mut app = make_app();
    app.set_tab(1);
    assert_eq!(app.active_tab, 1);
    app.set_tab(2);
    assert_eq!(app.active_tab, 2);
}

#[test]
fn set_tab_clamps_out_of_range() {
    let mut app = make_app();
    app.set_tab(3);
    assert_eq!(app.active_tab, 0);
    app.set_tab(255);
    assert_eq!(app.active_tab, 0);
}

#[test]
fn set_tab_zero_resets() {
    let mut app = make_app();
    app.set_tab(2);
    app.set_tab(0);
    assert_eq!(app.active_tab, 0);
}

#[test]
fn cycle_theme_rotates() {
    let mut app = make_app();
    assert_eq!(app.theme.name, ThemeName::Mizu);
    app.cycle_theme();
    assert_eq!(app.theme.name, ThemeName::Abyss);
    app.cycle_theme();
    assert_eq!(app.theme.name, ThemeName::Coral);
    app.cycle_theme();
    assert_eq!(app.theme.name, ThemeName::Mizu);
}

#[test]
fn toggle_flow_persists() {
    let mut app = make_app();
    let initial = app.settings.flow_enabled;
    app.toggle_flow();
    assert_ne!(app.settings.flow_enabled, initial);
}

#[test]
fn cycle_theme_keeps_settings_and_palette_together() {
    let mut app = App::new(Settings {
        refresh_rate_ms: 100,
        theme: ThemeName::Coral,
        flow_enabled: false,
    });
    assert_eq!(app.theme, MizuTheme::from_name(ThemeName::Coral));
    let before = app;
    app.cycle_theme();
    assert_eq!(app.settings.theme, ThemeName::Mizu);
    assert_eq!(app.theme, MizuTheme::from_name(ThemeName::Mizu));
    assert_eq!(app.settings.refresh_rate_ms, 100);
    app.cycle_theme();
    app.cycle_theme();
    assert_eq!(app, before);
    app.toggle_flow();
    app.toggle_flow();
    assert_eq!(app, before);
}

#[test]
fn push_cap_keeps_the_last_sixty() {
    let mut h: Vec<u32> = vec![0; HISTORY_LEN];
    push_cap(&mut h, 7);
    assert_eq!(h.len(), HISTORY_LEN);
    assert_eq!(*h.last().unwrap(), 7);
    for i in 0..100u32 {
        push_cap(&mut h, i);
    }
    assert_eq!(h.len(), HISTORY_LEN);
    assert_eq!(h[0], 40);
    assert_eq!(h[59], 99);

    let mut short: Vec<u32> = Vec::new();
    push_cap(&mut short, 1);
    push_cap(&mut short, 2);
    assert_eq!(short, vec![1, 2]);
}

#[test]
fn keys_drive_the_monitor() {
    let mut app = make_app();
    let start = app;
    assert_eq!(app.on_key('q', false), KeyOutcome::Quit);
    assert_eq!(app.on_key('c', true), KeyOutcome::Quit);
    assert_eq!(app, start);
    assert_eq!(app.on_key('c', false), KeyOutcome::Ignored);
    assert_eq!(app.on_key('x', true), KeyOutcome::Ignored);
    assert_eq!(app, start);
    assert_eq!(app.on_key('3', false), KeyOutcome::Changed { save: false });
    assert_eq!(app.active_tab, 2);
    assert_eq!(app.on_key('2', false), KeyOutcome::Changed { save: false });
    assert_eq!(app.active_tab, 1);
    assert_eq!(app.on_key('1', false), KeyOutcome::Changed { save: false });
    assert_eq!(app.active_tab, 0);
    assert_eq!(app.on_key('t', false), KeyOutcome::Changed { save: true });
    assert_eq!(app.settings.theme, ThemeName::Abyss);
    assert_eq!(app.theme.name, ThemeName::Abyss);
    assert_eq!(app.on_key('f', false), KeyOutcome::Changed { save: true });
    assert!(!app.settings.flow_enabled);
}
