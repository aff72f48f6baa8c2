//! Key bindings of the files tab.
use vstd::prelude::*;

use super::config::FilesTabKeybindsConfig;
use super::keybinds_store::{is_help_for, item_views, pair_views, Action, KeybindsStore};
use super::log_tab::{apply_config_entry, key_with};
use super::{KeyCode, KeyEvent, KeyModifiers, Keybind, Shortcut, SHIFT_BIT};

verus! {

/// What a key press asks of the files tab.
#[derive(Debug, PartialEq, Eq, Clone, Copy, Structural)]
pub enum FilesTabEvent {
    ScrollDown,
    ScrollUp,
    ScrollDownHalf,
    ScrollUpHalf,
    FocusCurrent,
    ToggleDiffFormat,
    Refresh,
    OpenHelp,
    Unbound,
}

impl Action for FilesTabEvent {
    fn same_action(&self, other: &Self) -> (r: bool) {
        *self == *other
    }
}

/// The key bindings of the files tab.
#[derive(Debug)]
pub struct FilesTabKeybinds {
    keys: KeybindsStore<FilesTabEvent>,
}

impl View for FilesTabKeybinds {
    type V = Map<Shortcut, FilesTabEvent>;

    closed spec fn view(&self) -> Map<Shortcut, FilesTabEvent> {
        self.keys@
    }
}

/// The default bindings of the files tab.
pub open spec fn files_tab_default_bindings() -> Map<Shortcut, FilesTabEvent> {
    Map::empty()
        .insert(key_with(KeyCode::Char('j'), 0), FilesTabEvent::ScrollDown)
        .insert(key_with(KeyCode::Down, 0), FilesTabEvent::ScrollDown)
        .insert(key_with(KeyCode::Char('k'), 0), FilesTabEvent::ScrollUp)
        .insert(key_with(KeyCode::Up, 0), FilesTabEvent::ScrollUp)
        .insert(key_with(KeyCode::Char('j'), SHIFT_BIT), FilesTabEvent::ScrollDownHalf)
        .insert(key_with(KeyCode::Char('k'), SHIFT_BIT), FilesTabEvent::ScrollUpHalf)
        .insert(key_with(KeyCode::Char('@'), 0), FilesTabEvent::FocusCurrent)
        .insert(key_with(KeyCode::Char('w'), 0), FilesTabEvent::ToggleDiffFormat)
        .insert(key_with(KeyCode::Char('r'), SHIFT_BIT), FilesTabEvent::Refresh)
        .insert(key_with(KeyCode::F(5), 0), FilesTabEvent::Refresh)
        .insert(key_with(KeyCode::Char('?'), 0), FilesTabEvent::OpenHelp)
}

/// The files tab bindings `m` after applying the configuration `c`, entry by entry.
pub open spec fn files_tab_configured(m: Map<Shortcut, FilesTabEvent>, c: FilesTabKeybindsConfig) -> Map<Shortcut, FilesTabEvent> {
    let m = apply_config_entry(m, FilesTabEvent::ScrollDown, c.scroll_down);
    let m = apply_config_entry(m, FilesTabEvent::ScrollUp, c.scroll_up);
    let m = apply_config_entry(m, FilesTabEvent::ScrollDownHalf, c.scroll_down_half);
    let m = apply_config_entry(m, FilesTabEvent::ScrollUpHalf, c.scroll_up_half);
    let m = apply_config_entry(m, FilesTabEvent::FocusCurrent, c.focus_current);
    let m = apply_config_entry(m, FilesTabEvent::ToggleDiffFormat, c.toggle_diff_format);
    let m = apply_config_entry(m, FilesTabEvent::Refresh, c.refresh);
    apply_config_entry(m, FilesTabEvent::OpenHelp, c.open_help)
}

/// The entries of the files tab's help, in the order they are shown.
pub open spec fn files_tab_help_items() -> Seq<(FilesTabEvent, Seq<char>)> {
    seq![
        (FilesTabEvent::ScrollDown, "scroll down"@),
        (FilesTabEvent::ScrollUp, "scroll up"@),
        (FilesTabEvent::ScrollDownHalf, "scroll down by ½ page"@),
        (FilesTabEvent::ScrollUpHalf, "scroll up by ½ page"@),
        (FilesTabEvent::FocusCurrent, "view files from current change"@),
    ]
}

fn sc(key: KeyCode, bits: u8) -> (r: Shortcut)
    ensures
        r == key_with(key, bits),
{
    Shortcut::new_mod_key(KeyModifiers { bits }, key)
}

impl Default for FilesTabKeybinds {
    fn default() -> (r: Self)
        ensures
            r@ == files_tab_default_bindings(),
    {
        let mut keys = KeybindsStore::<FilesTabEvent>::new();
        keys.add_action(sc(KeyCode::Char('j'), 0), FilesTabEvent::ScrollDown);
        keys.add_action(sc(KeyCode::Down, 0), FilesTabEvent::ScrollDown);
        keys.add_action(sc(KeyCode::Char('k'), 0), FilesTabEvent::ScrollUp);
        keys.add_action(sc(KeyCode::Up, 0), FilesTabEvent::ScrollUp);
        keys.add_action(sc(KeyCode::Char('j'), SHIFT_BIT), FilesTabEvent::ScrollDownHalf);
        keys.add_action(sc(KeyCode::Char('k'), SHIFT_BIT), FilesTabEvent::ScrollUpHalf);
        keys.add_action(sc(KeyCode::Char('@'), 0), FilesTabEvent::FocusCurrent);
        keys.add_action(sc(KeyCode::Char('w'), 0), FilesTabEvent::ToggleDiffFormat);
        keys.add_action(sc(KeyCode::Char('r'), SHIFT_BIT), FilesTabEvent::Refresh);
        keys.add_action(sc(KeyCode::F(5), 0), FilesTabEvent::Refresh);
        keys.add_action(sc(KeyCode::Char('?'), 0), FilesTabEvent::OpenHelp);
        Self { keys }
    }
}

impl FilesTabKeybinds {
    /// The event a key press stands for; `Unbound` if none.
    pub fn match_event(&self, event: KeyEvent) -> (r: FilesTabEvent)
        ensures
            ({
                let s = Shortcut::from_event_spec(event);
                r == if self@.contains_key(s) { self@[s] } else { FilesTabEvent::Unbound }
            }),
    {
        if let Some(action) = self.keys.match_event(event) {
            action
        } else {
            FilesTabEvent::Unbound
        }
    }

    fn update(&mut self, action: FilesTabEvent, key: &Option<Keybind>)
        ensures
            final(self)@ == apply_config_entry(old(self)@, action, *key),
    {
        if let Some(k) = key {
            self.keys.replace_action_from_config(action, k);
        }
    }

    /// Applies the configured bindings, entry by entry.
    pub fn extend_from_config(&mut self, config: &FilesTabKeybindsConfig)
        ensures
            final(self)@ == files_tab_configured(old(self)@, *config),
    {
        self.update(FilesTabEvent::ScrollDown, &config.scroll_down);
        self.update(FilesTabEvent::ScrollUp, &config.scroll_up);
        self.update(FilesTabEvent::ScrollDownHalf, &config.scroll_down_half);
        self.update(FilesTabEvent::ScrollUpHalf, &config.scroll_up_half);
        self.update(FilesTabEvent::FocusCurrent, &config.focus_current);
        self.update(FilesTabEvent::ToggleDiffFormat, &config.toggle_diff_format);
        self.update(FilesTabEvent::Refresh, &config.refresh);
        self.update(FilesTabEvent::OpenHelp, &config.open_help);
    }

    /// The help lines of the main panel (see `is_help_for`).
    pub fn make_main_panel_help(&self) -> (r: Vec<(String, String)>)
        ensures
            is_help_for(self@, files_tab_help_items(), pair_views(r@)),
    {
        let items: Vec<(FilesTabEvent, &str)> = vec![
            (FilesTabEvent::ScrollDown, "scroll down"),
            (FilesTabEvent::ScrollUp, "scroll up"),
            (FilesTabEvent::ScrollDownHalf, "scroll down by ½ page"),
            (FilesTabEvent::ScrollUpHalf, "scroll up by ½ page"),
            (FilesTabEvent::FocusCurrent, "view files from current change"),
        ];
        assert(item_views(items@) =~= files_tab_help_items());
        self.keys.make_help(&items)
    }
}

} // verus!
