use system_monitor::{
    AppAction, EventHandler, InputEvent, KeyCode, KeyEventData, KeyModifier,
};
use system_monitor::events::{handle_key_event, should_quit};

fn key(code: KeyCode, modifiers: KeyModifier) -> KeyEventData {
    KeyEventData { code, modifiers }
}

fn plain(code: KeyCode) -> KeyEventData {
    key(code, KeyModifier::Plain)
}

#[test]
fn quit_keys_map_to_quit() {
    assert_eq!(handle_key_event(plain(KeyCode::Char('q'))), Some(AppAction::Quit));
    assert_eq!(
        handle_key_event(key(KeyCode::Char('c'), KeyModifier::Control)),
        Some(AppAction::Quit)
    );
    assert_eq!(handle_key_event(plain(KeyCode::Esc)), Some(AppAction::Quit));
}

#[test]
fn tab_keys_map_to_tab_navigation() {
    assert_eq!(handle_key_event(plain(KeyCode::Tab)), Some(AppAction::NextTab));
    assert_eq!(
        handle_key_event(key(KeyCode::BackTab, KeyModifier::Shift)),
        Some(AppAction::PrevTab)
    );
}

#[test]
fn digit_keys_map_to_go_to_tab() {
    assert_eq!(handle_key_event(plain(KeyCode::Char('1'))), Some(AppAction::GoToTab(0)));
    assert_eq!(handle_key_event(plain(KeyCode::Char('2'))), Some(AppAction::GoToTab(1)));
    assert_eq!(handle_key_event(plain(KeyCode::Char('3'))), Some(AppAction::GoToTab(2)));
    assert_eq!(handle_key_event(plain(KeyCode::Char('4'))), Some(AppAction::GoToTab(3)));
}

#[test]
fn arrow_keys_map_to_scrolling() {
    assert_eq!(handle_key_event(plain(KeyCode::Up)), Some(AppAction::ScrollUp));
    assert_eq!(handle_key_event(plain(KeyCode::Down)), Some(AppAction::ScrollDown));
}

#[test]
fn utility_keys_map_to_refresh_and_help() {
    assert_eq!(handle_key_event(plain(KeyCode::Char('r'))), Some(AppAction::Refresh));
    assert_eq!(handle_key_event(plain(KeyCode::Char('h'))), Some(AppAction::Help));
}

#[test]
fn unmapped_combinations_map_to_nothing() {
    assert_eq!(handle_key_event(plain(KeyCode::Char('x'))), None);
    assert_eq!(handle_key_event(key(KeyCode::Char('q'), KeyModifier::Control)), None);
    assert_eq!(handle_key_event(key(KeyCode::Tab, KeyModifier::Shift)), None);
    assert_eq!(handle_key_event(key(KeyCode::Up, KeyModifier::Other)), None);
    assert_eq!(handle_key_event(plain(KeyCode::Other)), None);
}

#[test]
fn should_quit_recognises_only_quit_keys() {
    assert!(should_quit(&InputEvent::Key(plain(KeyCode::Char('q')))));
    assert!(should_quit(&InputEvent::Key(key(KeyCode::Char('c'), KeyModifier::Control))));
    assert!(should_quit(&InputEvent::Key(plain(KeyCode::Esc))));
    assert!(!should_quit(&InputEvent::Key(plain(KeyCode::Tab))));
    assert!(!should_quit(&InputEvent::Key(plain(KeyCode::Char('c')))));
    assert!(!should_quit(&InputEvent::Other));
}

#[test]
fn fresh_handler_debounces_only_tab_keys() {
    let h = EventHandler::new();
    assert!(h.should_debounce_key(&plain(KeyCode::Tab)));
    assert!(h.should_debounce_key(&key(KeyCode::BackTab, KeyModifier::Shift)));
    assert!(!h.should_debounce_key(&plain(KeyCode::Up)));
    assert!(!h.should_debounce_key(&plain(KeyCode::Down)));
    assert!(!h.should_debounce_key(&plain(KeyCode::Char('q'))));
}

#[test]
fn debounce_suppresses_second_trigger_inside_window() {
    let mut h = EventHandler::new();
    let tab = InputEvent::Key(plain(KeyCode::Tab));
    assert_eq!(h.filter_event(tab, 0), Some(tab));
    assert_eq!(h.filter_event(tab, 100), None);
    assert_eq!(h.filter_event(tab, 200), Some(tab));
}

#[test]
fn debounce_honours_triggers_a_full_window_apart() {
    let mut h = EventHandler::new();
    let tab = InputEvent::Key(plain(KeyCode::Tab));
    assert_eq!(h.filter_event(tab, 0), Some(tab));
    assert_eq!(h.filter_event(tab, 150), Some(tab));
    assert_eq!(h.filter_event(tab, 300), Some(tab));
}

#[test]
fn suppressed_trigger_does_not_move_the_window() {
    let mut h = EventHandler::new();
    let tab = InputEvent::Key(plain(KeyCode::Tab));
    assert_eq!(h.filter_event(tab, 0), Some(tab));
    assert_eq!(h.filter_event(tab, 140), None);
    // The window is measured from the honoured trigger at 0, not from the
    // suppressed one at 140.
    assert_eq!(h.filter_event(tab, 155), Some(tab));
}

#[test]
fn non_debounced_events_always_pass() {
    let mut h = EventHandler::new();
    let down = InputEvent::Key(plain(KeyCode::Down));
    assert_eq!(h.filter_event(down, 0), Some(down));
    assert_eq!(h.filter_event(down, 1), Some(down));
    assert_eq!(h.filter_event(down, 2), Some(down));
    assert_eq!(h.filter_event(InputEvent::Other, 3), Some(InputEvent::Other));
}

#[test]
fn backtab_shares_the_guard_with_tab() {
    let mut h = EventHandler::new();
    let tab = InputEvent::Key(plain(KeyCode::Tab));
    let backtab = InputEvent::Key(key(KeyCode::BackTab, KeyModifier::Shift));
    assert_eq!(h.filter_event(tab, 0), Some(tab));
    assert_eq!(h.filter_event(backtab, 100), None);
}
