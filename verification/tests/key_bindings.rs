use lazyjj::keybinds::config::{FilesTabKeybindsConfig, LogTabKeybindsConfig};
use lazyjj::keybinds::files_tab::{FilesTabEvent, FilesTabKeybinds};
use lazyjj::keybinds::keybinds_store::KeybindsStore;
use lazyjj::keybinds::rebase_popup::{CutOption, Keybinds, PasteOption, PopupAction};
use lazyjj::keybinds::{
    KeyCode, KeyEvent, KeyModifiers, Keybind, LogTabEvent, LogTabKeybinds, Shortcut,
};

fn press(code: KeyCode) -> KeyEvent {
    KeyEvent::new(code, KeyModifiers::empty())
}

fn press_with(code: KeyCode, bits: u8) -> KeyEvent {
    KeyEvent::new(code, KeyModifiers { bits })
}

fn empty_log_config() -> LogTabKeybindsConfig {
    LogTabKeybindsConfig {
        save: None,
        cancel: None,
        close_popup: None,
        scroll_down: None,
        scroll_up: None,
        scroll_down_half: None,
        scroll_up_half: None,
        focus_current: None,
        toggle_diff_format: None,
        refresh: None,
        duplicate: None,
        create_new: None,
        create_new_describe: None,
        squash: None,
        squash_ignore_immutable: None,
        edit_change: None,
        edit_change_ignore_immutable: None,
        abandon: None,
        describe: None,
        edit_revset: None,
        set_bookmark: None,
        open_files: None,
        rebase: None,
        push: None,
        push_new: None,
        push_all: None,
        push_all_new: None,
        fetch: None,
        fetch_all: None,
        open_help: None,
    }
}

#[test]
fn test_files_tab_keybinds_default() {
    let _ = FilesTabKeybinds::default();
}

#[test]
fn test_log_tab_keybinds_default() {
    let _ = LogTabKeybinds::default();
}

#[test]
fn log_tab_default_keys_match_their_events() {
    let k = LogTabKeybinds::default();
    assert_eq!(k.match_event(press(KeyCode::Char('j'))), LogTabEvent::ScrollDown);
    assert_eq!(k.match_event(press(KeyCode::Down)), LogTabEvent::ScrollDown);
    assert_eq!(k.match_event(press(KeyCode::Char('k'))), LogTabEvent::ScrollUp);
    assert_eq!(
        k.match_event(press_with(KeyCode::Char('J'), 0x01)),
        LogTabEvent::ScrollDownHalf
    );
    assert_eq!(
        k.match_event(press_with(KeyCode::Char('s'), 0x02)),
        LogTabEvent::Save
    );
    assert_eq!(
        k.match_event(press_with(KeyCode::Char('P'), 0x03)),
        LogTabEvent::Push { all_bookmarks: true, allow_new: true }
    );
    assert_eq!(k.match_event(press(KeyCode::Enter)), LogTabEvent::OpenFiles);
    assert_eq!(k.match_event(press(KeyCode::Char('z'))), LogTabEvent::Unbound);
}

#[test]
fn files_tab_default_keys_match_their_events() {
    let k = FilesTabKeybinds::default();
    assert_eq!(k.match_event(press(KeyCode::Char('j'))), FilesTabEvent::ScrollDown);
    assert_eq!(k.match_event(press(KeyCode::F(5))), FilesTabEvent::Refresh);
    assert_eq!(
        k.match_event(press_with(KeyCode::Char('R'), 0x01)),
        FilesTabEvent::Refresh
    );
    assert_eq!(k.match_event(press(KeyCode::Char('?'))), FilesTabEvent::OpenHelp);
    assert_eq!(k.match_event(press(KeyCode::Char('x'))), FilesTabEvent::Unbound);
}

#[test]
fn configured_single_key_replaces_defaults() {
    let mut k = LogTabKeybinds::default();
    let mut config = empty_log_config();
    config.scroll_down = Some(Keybind::Single(Shortcut::new_char('x')));
    k.extend_from_config(&config);
    assert_eq!(k.match_event(press(KeyCode::Char('x'))), LogTabEvent::ScrollDown);
    assert_eq!(k.match_event(press(KeyCode::Char('j'))), LogTabEvent::Unbound);
    assert_eq!(k.match_event(press(KeyCode::Down)), LogTabEvent::Unbound);
    assert_eq!(k.match_event(press(KeyCode::Char('k'))), LogTabEvent::ScrollUp);
}

#[test]
fn configured_false_unbinds_action() {
    let mut k = FilesTabKeybinds::default();
    let config = FilesTabKeybindsConfig {
        scroll_down: None,
        scroll_up: None,
        scroll_down_half: None,
        scroll_up_half: None,
        focus_current: None,
        toggle_diff_format: None,
        refresh: Some(Keybind::Enable(false)),
        open_help: Some(Keybind::Enable(true)),
    };
    k.extend_from_config(&config);
    assert_eq!(k.match_event(press(KeyCode::F(5))), FilesTabEvent::Unbound);
    assert_eq!(k.match_event(press(KeyCode::Char('?'))), FilesTabEvent::OpenHelp);
}

#[test]
fn configured_multiple_keys_bind_each() {
    let mut k = LogTabKeybinds::default();
    let mut config = empty_log_config();
    config.open_help = Some(Keybind::Multiple(vec![
        Shortcut::new_char('h'),
        Shortcut::new_key(KeyCode::F(1)),
    ]));
    k.extend_from_config(&config);
    assert_eq!(k.match_event(press(KeyCode::Char('h'))), LogTabEvent::OpenHelp);
    assert_eq!(k.match_event(press(KeyCode::F(1))), LogTabEvent::OpenHelp);
    assert_eq!(k.match_event(press(KeyCode::Char('?'))), LogTabEvent::Unbound);
}

#[test]
fn store_add_match_remove() {
    let mut store: KeybindsStore<LogTabEvent> = KeybindsStore::new();
    assert_eq!(store.len(), 0);
    store.add_action(Shortcut::new_char('a'), LogTabEvent::Abandon);
    store.add_action(Shortcut::new_char('b'), LogTabEvent::SetBookmark);
    assert_eq!(store.len(), 2);
    assert_eq!(store.match_event(press(KeyCode::Char('a'))), Some(LogTabEvent::Abandon));
    store.add_action(Shortcut::new_char('a'), LogTabEvent::Describe);
    assert_eq!(store.len(), 2);
    assert_eq!(store.match_event(press(KeyCode::Char('a'))), Some(LogTabEvent::Describe));
    store.replace_action_from_config(LogTabEvent::Describe, &Keybind::Enable(false));
    assert_eq!(store.match_event(press(KeyCode::Char('a'))), None);
    assert_eq!(store.match_event(press(KeyCode::Char('b'))), Some(LogTabEvent::SetBookmark));
    assert_eq!(store.len(), 1);
}

#[test]
fn store_lists_shortcuts_of_action() {
    let k = LogTabKeybinds::default();
    let help = k.make_main_panel_help();
    assert_eq!(help[0], ("j/down".to_owned(), "scroll down".to_owned()));
    assert_eq!(help[1], ("k/up".to_owned(), "scroll up".to_owned()));
}

#[test]
fn shortcut_text_and_parse() {
    let s = Shortcut::new_mod_char(KeyModifiers { bits: 0x03 }, 'p');
    assert_eq!(s.to_text(), "ctrl+shift+p");
    assert_eq!(Shortcut::parse("ctrl+shift+p"), Some(s));
    assert_eq!(Shortcut::parse("f5"), Some(Shortcut::new_key(KeyCode::F(5))));
    assert_eq!(Shortcut::new_key(KeyCode::F(12)).to_text(), "f12");
    assert_eq!(Shortcut::parse("enter"), Some(Shortcut::new_key(KeyCode::Enter)));
    assert_eq!(Shortcut::parse("?"), Some(Shortcut::new_char('?')));
    assert_eq!(Shortcut::parse("bogus+x"), None);
    assert_eq!(Shortcut::parse("ctrl+nokey"), None);
}

#[test]
fn shortcut_from_event_lowers_letters() {
    let s = Shortcut::from_event(press_with(KeyCode::Char('J'), 0x01));
    assert_eq!(s, Shortcut::new_mod_char(KeyModifiers::shift(), 'j'));
}

#[test]
fn rebase_popup_default_keys() {
    let k = Keybinds::default();
    assert_eq!(k.match_event(press(KeyCode::Enter)), PopupAction::Accept);
    assert_eq!(k.match_event(press(KeyCode::Char('q'))), PopupAction::Cancel);
    assert_eq!(
        k.match_event(press(KeyCode::Char('s'))),
        PopupAction::SetSourceMode(CutOption::IncludeDescendants)
    );
    assert_eq!(
        k.match_event(press_with(KeyCode::Char('B'), 0x01)),
        PopupAction::SetTargetMode(PasteOption::InsertBefore)
    );
    assert_eq!(k.match_event(press(KeyCode::Char('x'))), PopupAction::NoAction);
}

#[test]
fn modifiers_contain() {
    let both = KeyModifiers { bits: 0x03 };
    assert!(both.contains(KeyModifiers::control()));
    assert!(both.contains(KeyModifiers::shift()));
    assert!(!KeyModifiers::shift().contains(KeyModifiers::control()));
    assert!(KeyModifiers::empty().contains(KeyModifiers::empty()));
}

#[test]
fn shortcut_text_reads_back() {
    let cases = [
        Shortcut::new_mod_key(KeyModifiers { bits: 0x3f }, KeyCode::PageDown),
        Shortcut::new_mod_key(KeyModifiers { bits: 0x24 }, KeyCode::F(10)),
        Shortcut::new_mod_char(KeyModifiers { bits: 0x10 }, ' '),
        Shortcut::new_key(KeyCode::BackTab),
        Shortcut::new_char('@'),
    ];
    for s in cases {
        assert_eq!(Shortcut::parse(&s.to_text()), Some(s));
    }
    assert_eq!(
        Shortcut::new_mod_key(KeyModifiers { bits: 0x24 }, KeyCode::F(10)).to_text(),
        "alt+meta+f10"
    );
}
