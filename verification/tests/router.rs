use chetris::events::AppEvent;
use chetris::geometry::Corner;
use chetris::router::{handle_menu_id, parse_menu_id, Directive, MenuAction};
use chetris::settings::SettingsDoc;

#[test]
fn parse_quit() {
    assert!(matches!(parse_menu_id("quit"), MenuAction::Quit));
}

#[test]
fn parse_positions() {
    assert!(matches!(parse_menu_id("pos_tl"), MenuAction::MoveTo(Corner::TopLeft)));
    assert!(matches!(parse_menu_id("pos_tr"), MenuAction::MoveTo(Corner::TopRight)));
    assert!(matches!(parse_menu_id("pos_bl"), MenuAction::MoveTo(Corner::BottomLeft)));
    assert!(matches!(parse_menu_id("pos_br"), MenuAction::MoveTo(Corner::BottomRight)));
}

#[test]
fn parse_unknown_corner_defaults_bottom_right() {
    assert!(matches!(parse_menu_id("pos_xy"), MenuAction::MoveTo(Corner::BottomRight)));
}

#[test]
fn parse_theme_carries_id_verbatim() {
    match parse_menu_id("theme_matrix") {
        MenuAction::Theme(theme) => assert_eq!(theme, "matrix"),
        _ => panic!("expected a theme action"),
    }
}

#[test]
fn parse_toggle_carries_flag() {
    match parse_menu_id("toggle_autoFade") {
        MenuAction::Toggle(key) => assert_eq!(key, "autoFade"),
        _ => panic!("expected a toggle action"),
    }
}

#[test]
fn parse_unknown_id_is_ignored() {
    assert!(matches!(parse_menu_id("zzz"), MenuAction::Other));
    assert!(matches!(parse_menu_id(""), MenuAction::Other));
    // a prefix alone is a valid id with an empty payload
    assert!(matches!(parse_menu_id("theme_"), MenuAction::Theme(_)));
}

#[test]
fn route_quit_exits() {
    let mut doc = SettingsDoc::empty();
    let directives = handle_menu_id("quit", &mut doc);
    assert_eq!(directives.len(), 1);
    assert!(matches!(directives[0], Directive::Exit));
}

#[test]
fn route_position_moves_window() {
    let mut doc = SettingsDoc::empty();
    let directives = handle_menu_id("pos_tl", &mut doc);
    assert_eq!(directives.len(), 1);
    assert!(matches!(directives[0], Directive::MoveTo(Corner::TopLeft)));
}

#[test]
fn route_theme_emits_event() {
    let mut doc = SettingsDoc::empty();
    let directives = handle_menu_id("theme_gameboy", &mut doc);
    assert_eq!(directives.len(), 1);
    match &directives[0] {
        Directive::Emit(AppEvent::SetTheme(theme)) => assert_eq!(theme, "gameboy"),
        _ => panic!("expected a set-theme emission"),
    }
}

#[test]
fn route_toggle_persists_then_emits() {
    let mut doc = SettingsDoc::empty();
    let directives = handle_menu_id("toggle_particles", &mut doc);
    assert_eq!(directives.len(), 2);
    assert!(matches!(directives[0], Directive::Persist));
    match &directives[1] {
        Directive::Emit(AppEvent::ToggleSetting { key, value }) => {
            assert_eq!(key, "particles");
            assert_eq!(*value, false);
        },
        _ => panic!("expected a toggle-setting emission"),
    }
    assert_eq!(doc.get_flag("particles"), Some(false));
}

#[test]
fn route_toggle_auto_start_drives_registration_before_emitting() {
    let mut doc = SettingsDoc::empty();
    let directives = handle_menu_id("toggle_autoStart", &mut doc);
    assert_eq!(directives.len(), 3);
    assert!(matches!(directives[0], Directive::Persist));
    assert!(matches!(directives[1], Directive::SetAutoStart(false)));
    assert!(matches!(directives[2], Directive::Emit(AppEvent::ToggleSetting { .. })));
    assert_eq!(doc.get_flag("autoStart"), Some(false));
}

#[test]
fn route_unknown_id_does_nothing() {
    let mut doc = SettingsDoc::empty();
    let directives = handle_menu_id("settings", &mut doc);
    assert_eq!(directives.len(), 0);
    assert_eq!(doc.get_flag("settings"), None);
}
