//! Key bindings of the log tab.
use vstd::prelude::*;

use super::config::LogTabKeybindsConfig;
use super::keybinds_store::{is_help_for, item_views, pair_views, rebound, Action, KeybindsStore};
use super::{KeyCode, KeyEvent, KeyModifiers, Keybind, Shortcut, CONTROL_BIT, SHIFT_BIT};

verus! {

/// What a key press asks of the log tab.
#[derive(Debug, PartialEq, Eq, Clone, Copy, Structural)]
pub enum LogTabEvent {
    Save,
    Cancel,
    ClosePopup,
    ScrollDown,
    ScrollUp,
    ScrollDownHalf,
    ScrollUpHalf,
    FocusCurrent,
    ToggleDiffFormat,
    Refresh,
    CreateNew { describe: bool },
    Squash { ignore_immutable: bool },
    EditChange { ignore_immutable: bool },
    Abandon,
    Describe,
    EditRevset,
    SetBookmark,
    OpenFiles,
    Rebase,
    Push { all_bookmarks: bool, allow_new: bool },
    Fetch { all_remotes: bool },
    OpenHelp,
    Unbound,
}

impl Action for LogTabEvent {
    fn same_action(&self, other: &Self) -> (r: bool) {
        *self == *other
    }
}

/// The key bindings of the log tab.
#[derive(Debug)]
pub struct LogTabKeybinds {
    keys: KeybindsStore<LogTabEvent>,
}

/// The push event with the given options.
pub fn event_push(all_bookmarks: bool, allow_new: bool) -> (r: LogTabEvent)
    ensures
        r == (LogTabEvent::Push { all_bookmarks, allow_new }),
{
    LogTabEvent::Push { all_bookmarks, allow_new }
}

/// The shortcut of a key with the given modifier bits.
pub open spec fn key_with(key: KeyCode, bits: u8) -> Shortcut {
    Shortcut { key, modifiers: KeyModifiers { bits } }
}

fn sc(key: KeyCode, bits: u8) -> (r: Shortcut)
    ensures
        r == key_with(key, bits),
{
    Shortcut::new_mod_key(KeyModifiers { bits }, key)
}

/// The default bindings of the log tab.
pub open spec fn log_tab_default_bindings() -> Map<Shortcut, LogTabEvent> {
    Map::empty()
        .insert(key_with(KeyCode::Char('s'), CONTROL_BIT), LogTabEvent::Save)
        .insert(key_with(KeyCode::Esc, 0), LogTabEvent::Cancel)
        .insert(key_with(KeyCode::Char('q'), 0), LogTabEvent::ClosePopup)
        .insert(key_with(KeyCode::Char('j'), 0), LogTabEvent::ScrollDown)
        .insert(key_with(KeyCode::Down, 0), LogTabEvent::ScrollDown)
        .insert(key_with(KeyCode::Char('k'), 0), LogTabEvent::ScrollUp)
        .insert(key_with(KeyCode::Up, 0), LogTabEvent::ScrollUp)
        .insert(key_with(KeyCode::Char('j'), SHIFT_BIT), LogTabEvent::ScrollDownHalf)
        .insert(key_with(KeyCode::Char('k'), SHIFT_BIT), LogTabEvent::ScrollUpHalf)
        .insert(key_with(KeyCode::Char('@'), 0), LogTabEvent::FocusCurrent)
        .insert(key_with(KeyCode::Char('w'), 0), LogTabEvent::ToggleDiffFormat)
        .insert(key_with(KeyCode::Char('r'), SHIFT_BIT), LogTabEvent::Refresh)
        .insert(key_with(KeyCode::F(5), 0), LogTabEvent::Refresh)
        .insert(key_with(KeyCode::Char('n'), 0), LogTabEvent::CreateNew { describe: false })
        .insert(key_with(KeyCode::Char('n'), SHIFT_BIT), LogTabEvent::CreateNew { describe: true })
        .insert(key_with(KeyCode::Char('s'), 0), LogTabEvent::Squash { ignore_immutable: false })
        .insert(key_with(KeyCode::Char('s'), SHIFT_BIT), LogTabEvent::Squash { ignore_immutable: true })
        .insert(key_with(KeyCode::Char('e'), 0), LogTabEvent::EditChange { ignore_immutable: false })
        .insert(key_with(KeyCode::Char('e'), SHIFT_BIT), LogTabEvent::EditChange { ignore_immutable: true })
        .insert(key_with(KeyCode::Char('a'), 0), LogTabEvent::Abandon)
        .insert(key_with(KeyCode::Char('d'), 0), LogTabEvent::Describe)
        .insert(key_with(KeyCode::Char('r'), 0), LogTabEvent::EditRevset)
        .insert(key_with(KeyCode::Char('b'), 0), LogTabEvent::SetBookmark)
        .insert(key_with(KeyCode::Enter, 0), LogTabEvent::OpenFiles)
        .insert(key_with(KeyCode::Char('p'), 0), LogTabEvent::Push { all_bookmarks: false, allow_new: false })
        .insert(key_with(KeyCode::Char('p'), CONTROL_BIT), LogTabEvent::Push { all_bookmarks: false, allow_new: true })
        .insert(key_with(KeyCode::Char('p'), SHIFT_BIT), LogTabEvent::Push { all_bookmarks: true, allow_new: false })
        .insert(key_with(KeyCode::Char('p'), CONTROL_BIT | SHIFT_BIT), LogTabEvent::Push { all_bookmarks: true, allow_new: true })
        .insert(key_with(KeyCode::Char('f'), 0), LogTabEvent::Fetch { all_remotes: false })
        .insert(key_with(KeyCode::Char('f'), SHIFT_BIT), LogTabEvent::Fetch { all_remotes: true })
        .insert(key_with(KeyCode::Char('?'), 0), LogTabEvent::OpenHelp)
}

/// `m` with the configured binding of `action` applied, if one is configured.
pub open spec fn apply_config_entry<A>(m: Map<Shortcut, A>, action: A, key: Option<Keybind>) -> Map<Shortcut, A> {
    match key {
        Some(k) => rebound(m, action, k),
        None => m,
    }
}

/// The log tab bindings `m` after applying the configuration `c`, entry by entry.
pub open spec fn log_tab_configured(m: Map<Shortcut, LogTabEvent>, c: LogTabKeybindsConfig) -> Map<Shortcut, LogTabEvent> {
    let m = apply_config_entry(m, LogTabEvent::Save, c.save);
    let m = apply_config_entry(m, LogTabEvent::Cancel, c.cancel);
    let m = apply_config_entry(m, LogTabEvent::ClosePopup, c.close_popup);
    let m = apply_config_entry(m, LogTabEvent::ScrollDown, c.scroll_down);
    let m = apply_config_entry(m, LogTabEvent::ScrollUp, c.scroll_up);
    let m = apply_config_entry(m, LogTabEvent::ScrollDownHalf, c.scroll_down_half);
    let m = apply_config_entry(m, LogTabEvent::ScrollUpHalf, c.scroll_up_half);
    let m = apply_config_entry(m, LogTabEvent::FocusCurrent, c.focus_current);
    let m = apply_config_entry(m, LogTabEvent::ToggleDiffFormat, c.toggle_diff_format);
    let m = apply_config_entry(m, LogTabEvent::Refresh, c.refresh);
    let m = apply_config_entry(m, LogTabEvent::CreateNew { describe: false }, c.create_new);
    let m = apply_config_entry(m, LogTabEvent::CreateNew { describe: true }, c.create_new_describe);
    let m = apply_config_entry(m, LogTabEvent::Squash { ignore_immutable: false }, c.squash);
    let m = apply_config_entry(m, LogTabEvent::Squash { ignore_immutable: true }, c.squash_ignore_immutable);
    let m = apply_config_entry(m, LogTabEvent::EditChange { ignore_immutable: false }, c.edit_change);
    let m = apply_config_entry(m, LogTabEvent::EditChange { ignore_immutable: true }, c.edit_change_ignore_immutable);
    let m = apply_config_entry(m, LogTabEvent::Abandon, c.abandon);
    let m = apply_config_entry(m, LogTabEvent::Describe, c.describe);
    let m = apply_config_entry(m, LogTabEvent::EditRevset, c.edit_revset);
    let m = apply_config_entry(m, LogTabEvent::SetBookmark, c.set_bookmark);
    let m = apply_config_entry(m, LogTabEvent::OpenFiles, c.open_files);
    let m = apply_config_entry(m, LogTabEvent::Rebase, c.rebase);
    let m = apply_config_entry(m, LogTabEvent::Push { all_bookmarks: false, allow_new: false }, c.push);
    let m = apply_config_entry(m, LogTabEvent::Push { all_bookmarks: false, allow_new: true }, c.push_new);
    let m = apply_config_entry(m, LogTabEvent::Push { all_bookmarks: true, allow_new: false }, c.push_all);
    let m = apply_config_entry(m, LogTabEvent::Push { all_bookmarks: true, allow_new: true }, c.push_all_new);
    let m = apply_config_entry(m, LogTabEvent::Fetch { all_remotes: false }, c.fetch);
    let m = apply_config_entry(m, LogTabEvent::Fetch { all_remotes: true }, c.fetch_all);
    apply_config_entry(m, LogTabEvent::OpenHelp, c.open_help)
}

/// The entries of the log tab's help, in the order they are shown.
pub open spec fn log_tab_help_items() -> Seq<(LogTabEvent, Seq<char>)> {
    seq![
        (LogTabEvent::ScrollDown, "scroll down"@),
        (LogTabEvent::ScrollUp, "scroll up"@),
        (LogTabEvent::ScrollDownHalf, "scroll down by ½ page"@),
        (LogTabEvent::ScrollUpHalf, "scroll up by ½ page"@),
        (LogTabEvent::OpenFiles, "see files"@),
        (LogTabEvent::FocusCurrent, "current change"@),
        (LogTabEvent::EditRevset, "set revset"@),
        (LogTabEvent::Describe, "describe change"@),
        (LogTabEvent::EditChange { ignore_immutable: false }, "edit change"@),
        (LogTabEvent::EditChange { ignore_immutable: true }, "edit change ignoring immutability"@),
        (LogTabEvent::CreateNew { describe: false }, "new change"@),
        (LogTabEvent::CreateNew { describe: true }, "new with message"@),
        (LogTabEvent::Abandon, "abandon change"@),
        (LogTabEvent::Squash { ignore_immutable: false }, "squash @ into the selected change"@),
        (LogTabEvent::Squash { ignore_immutable: true }, "squash @ into the selected change ignoring immutability"@),
        (LogTabEvent::SetBookmark, "set bookmark"@),
        (LogTabEvent::Fetch { all_remotes: false }, "git fetch"@),
        (LogTabEvent::Fetch { all_remotes: true }, "git fetch all remotes"@),
        (LogTabEvent::Push { all_bookmarks: false, allow_new: false }, "git push"@),
        (LogTabEvent::Push { all_bookmarks: false, allow_new: true }, "git push with new bookmarks"@),
        (LogTabEvent::Push { all_bookmarks: true, allow_new: false }, "git push all bookmarks, except new"@),
        (LogTabEvent::Push { all_bookmarks: true, allow_new: true }, "git push all bookmarks"@),
    ]
}

impl View for LogTabKeybinds {
    type V = Map<Shortcut, LogTabEvent>;

    closed spec fn view(&self) -> Map<Shortcut, LogTabEvent> {
        self.keys@
    }
}

impl Default for LogTabKeybinds {
    fn default() -> (r: Self)
        ensures
            r@ == log_tab_default_bindings(),
    {
        let mut keys = KeybindsStore::<LogTabEvent>::new();
        keys.add_action(sc(KeyCode::Char('s'), CONTROL_BIT), LogTabEvent::Save);
        keys.add_action(sc(KeyCode::Esc, 0), LogTabEvent::Cancel);
        keys.add_action(sc(KeyCode::Char('q'), 0), LogTabEvent::ClosePopup);
        keys.add_action(sc(KeyCode::Char('j'), 0), LogTabEvent::ScrollDown);
        keys.add_action(sc(KeyCode::Down, 0), LogTabEvent::ScrollDown);
        keys.add_action(sc(KeyCode::Char('k'), 0), LogTabEvent::ScrollUp);
        keys.add_action(sc(KeyCode::Up, 0), LogTabEvent::ScrollUp);
        keys.add_action(sc(KeyCode::Char('j'), SHIFT_BIT), LogTabEvent::ScrollDownHalf);
        keys.add_action(sc(KeyCode::Char('k'), SHIFT_BIT), LogTabEvent::ScrollUpHalf);
        keys.add_action(sc(KeyCode::Char('@'), 0), LogTabEvent::FocusCurrent);
        keys.add_action(sc(KeyCode::Char('w'), 0), LogTabEvent::ToggleDiffFormat);
        keys.add_action(sc(KeyCode::Char('r'), SHIFT_BIT), LogTabEvent::Refresh);
        keys.add_action(sc(KeyCode::F(5), 0), LogTabEvent::Refresh);
        keys.add_action(sc(KeyCode::Char('n'), 0), LogTabEvent::CreateNew { describe: false });
        keys.add_action(sc(KeyCode::Char('n'), SHIFT_BIT), LogTabEvent::CreateNew { describe: true });
        keys.add_action(sc(KeyCode::Char('s'), 0), LogTabEvent::Squash { ignore_immutable: false });
        keys.add_action(sc(KeyCode::Char('s'), SHIFT_BIT), LogTabEvent::Squash { ignore_immutable: true });
        keys.add_action(sc(KeyCode::Char('e'), 0), LogTabEvent::EditChange { ignore_immutable: false });
        keys.add_action(sc(KeyCode::Char('e'), SHIFT_BIT), LogTabEvent::EditChange { ignore_immutable: true });
        keys.add_action(sc(KeyCode::Char('a'), 0), LogTabEvent::Abandon);
        keys.add_action(sc(KeyCode::Char('d'), 0), LogTabEvent::Describe);
        keys.add_action(sc(KeyCode::Char('r'), 0), LogTabEvent::EditRevset);
        keys.add_action(sc(KeyCode::Char('b'), 0), LogTabEvent::SetBookmark);
        keys.add_action(sc(KeyCode::Enter, 0), LogTabEvent::OpenFiles);
        keys.add_action(sc(KeyCode::Char('p'), 0), event_push(false, false));
        keys.add_action(sc(KeyCode::Char('p'), CONTROL_BIT), event_push(false, true));
        keys.add_action(sc(KeyCode::Char('p'), SHIFT_BIT), event_push(true, false));
        keys.add_action(sc(KeyCode::Char('p'), CONTROL_BIT | SHIFT_BIT), event_push(true, true));
        keys.add_action(sc(KeyCode::Char('f'), 0), LogTabEvent::Fetch { all_remotes: false });
        keys.add_action(sc(KeyCode::Char('f'), SHIFT_BIT), LogTabEvent::Fetch { all_remotes: true });
        keys.add_action(sc(KeyCode::Char('?'), 0), LogTabEvent::OpenHelp);
        Self { keys }
    }
}

impl LogTabKeybinds {
    /// The event a key press stands for; `Unbound` if none.
    pub fn match_event(&self, event: KeyEvent) -> (r: LogTabEvent)
        ensures
            ({
                let s = Shortcut::from_event_spec(event);
                r == if self@.contains_key(s) { self@[s] } else { LogTabEvent::Unbound }
            }),
    {
        if let Some(action) = self.keys.match_event(event) {
            action
        } else {
            LogTabEvent::Unbound
        }
    }

    fn update(&mut self, action: LogTabEvent, key: &Option<Keybind>)
        ensures
            final(self)@ == apply_config_entry(old(self)@, action, *key),
    {
        if let Some(k) = key {
            self.keys.replace_action_from_config(action, k);
        }
    }

    /// Applies the configured bindings, entry by entry.
    pub fn extend_from_config(&mut self, config: &LogTabKeybindsConfig)
        ensures
            final(self)@ == log_tab_configured(old(self)@, *config),
    {
        self.update(LogTabEvent::Save, &config.save);
        self.update(LogTabEvent::Cancel, &config.cancel);
        self.update(LogTabEvent::ClosePopup, &config.close_popup);
        self.update(LogTabEvent::ScrollDown, &config.scroll_down);
        self.update(LogTabEvent::ScrollUp, &config.scroll_up);
        self.update(LogTabEvent::ScrollDownHalf, &config.scroll_down_half);
        self.update(LogTabEvent::ScrollUpHalf, &config.scroll_up_half);
        self.update(LogTabEvent::FocusCurrent, &config.focus_current);
        self.update(LogTabEvent::ToggleDiffFormat, &config.toggle_diff_format);
        self.update(LogTabEvent::Refresh, &config.refresh);
        self.update(LogTabEvent::CreateNew { describe: false }, &config.create_new);
        self.update(LogTabEvent::CreateNew { describe: true }, &config.create_new_describe);
        self.update(LogTabEvent::Squash { ignore_immutable: false }, &config.squash);
        self.update(LogTabEvent::Squash { ignore_immutable: true }, &config.squash_ignore_immutable);
        self.update(LogTabEvent::EditChange { ignore_immutable: false }, &config.edit_change);
        self.update(LogTabEvent::EditChange { ignore_immutable: true }, &config.edit_change_ignore_immutable);
        self.update(LogTabEvent::Abandon, &config.abandon);
        self.update(LogTabEvent::Describe, &config.describe);
        self.update(LogTabEvent::EditRevset, &config.edit_revset);
        self.update(LogTabEvent::SetBookmark, &config.set_bookmark);
        self.update(LogTabEvent::OpenFiles, &config.open_files);
        self.update(LogTabEvent::Rebase, &config.rebase);
        self.update(event_push(false, false), &config.push);
        self.update(event_push(false, true), &config.push_new);
        self.update(event_push(true, false), &config.push_all);
        self.update(event_push(true, true), &config.push_all_new);
        self.update(LogTabEvent::Fetch { all_remotes: false }, &config.fetch);
        self.update(LogTabEvent::Fetch { all_remotes: true }, &config.fetch_all);
        self.update(LogTabEvent::OpenHelp, &config.open_help);
    }

    /// The help lines of the main panel (see `is_help_for`).
    pub fn make_main_panel_help(&self) -> (r: Vec<(String, String)>)
        ensures
            is_help_for(self@, log_tab_help_items(), pair_views(r@)),
    {
        let items: Vec<(LogTabEvent, &str)> = vec![
            (LogTabEvent::ScrollDown, "scroll down"),
            (LogTabEvent::ScrollUp, "scroll up"),
            (LogTabEvent::ScrollDownHalf, "scroll down by ½ page"),
            (LogTabEvent::ScrollUpHalf, "scroll up by ½ page"),
            (LogTabEvent::OpenFiles, "see files"),
            (LogTabEvent::FocusCurrent, "current change"),
            (LogTabEvent::EditRevset, "set revset"),
            (LogTabEvent::Describe, "describe change"),
            (LogTabEvent::EditChange { ignore_immutable: false }, "edit change"),
            (LogTabEvent::EditChange { ignore_immutable: true }, "edit change ignoring immutability"),
            (LogTabEvent::CreateNew { describe: false }, "new change"),
            (LogTabEvent::CreateNew { describe: true }, "new with message"),
            (LogTabEvent::Abandon, "abandon change"),
            (LogTabEvent::Squash { ignore_immutable: false }, "squash @ into the selected change"),
            (LogTabEvent::Squash { ignore_immutable: true }, "squash @ into the selected change ignoring immutability"),
            (LogTabEvent::SetBookmark, "set bookmark"),
            (LogTabEvent::Fetch { all_remotes: false }, "git fetch"),
            (LogTabEvent::Fetch { all_remotes: true }, "git fetch all remotes"),
            (event_push(false, false), "git push"),
            (event_push(false, true), "git push with new bookmarks"),
            (event_push(true, false), "git push all bookmarks, except new"),
            (event_push(true, true), "git push all bookmarks"),
        ];
        assert(item_views(items@) =~= log_tab_help_items());
        self.keys.make_help(&items)
    }
}

} // verus!
