//! The tabs of the application and what a key does at the top level.
use vstd::prelude::*;

use crate::keybinds::{KeyCode, KeyEvent, KeyEventKind, KeyModifiers, CONTROL_BIT};

verus! {

/// The tabs of the application, in the order they are shown.
#[derive(Clone, Copy, Debug, PartialEq, Eq, Structural)]
pub enum Tab {
    Log,
    Files,
    Bookmarks,
    CommandLog,
}

/// The place of a tab in the row of tabs, from 0.
pub open spec fn tab_index(tab: Tab) -> int {
    match tab {
        Tab::Log => 0,
        Tab::Files => 1,
        Tab::Bookmarks => 2,
        Tab::CommandLog => 3,
    }
}

/// The tab at place `i` of the row, for `0 <= i < 4`.
pub open spec fn tab_at(i: int) -> Tab {
    if i == 0 {
        Tab::Log
    } else if i == 1 {
        Tab::Files
    } else if i == 2 {
        Tab::Bookmarks
    } else {
        Tab::CommandLog
    }
}

/// The tab after `tab`, going round from the last to the first.
pub open spec fn tab_after(tab: Tab) -> Tab {
    tab_at((tab_index(tab) + 1) % 4)
}

/// The tab before `tab`, going round from the first to the last.
pub open spec fn tab_before(tab: Tab) -> Tab {
    tab_at((tab_index(tab) + 3) % 4)
}

/// The title of a tab.
pub open spec fn tab_title(tab: Tab) -> Seq<char> {
    match tab {
        Tab::Log => seq!['L', 'o', 'g'],
        Tab::Files => seq!['F', 'i', 'l', 'e', 's'],
        Tab::Bookmarks => seq!['B', 'o', 'o', 'k', 'm', 'a', 'r', 'k', 's'],
        Tab::CommandLog => seq!['C', 'o', 'm', 'm', 'a', 'n', 'd', ' ', 'L', 'o', 'g'],
    }
}

impl Tab {
    /// Every tab, in the order they are shown.
    pub fn values() -> (r: [Tab; 4])
        ensures
            forall|i: int| 0 <= i < 4 ==> #[trigger] r@[i] == tab_at(i),
    {
        [Tab::Log, Tab::Files, Tab::Bookmarks, Tab::CommandLog]
    }

    /// The place of the tab in the row of tabs, from 0.
    pub fn index(self) -> (r: usize)
        ensures
            r == tab_index(self),
    {
        match self {
            Tab::Log => 0,
            Tab::Files => 1,
            Tab::Bookmarks => 2,
            Tab::CommandLog => 3,
        }
    }

    /// The tab after this one, going round from the last to the first.
    pub fn next(self) -> (r: Tab)
        ensures
            r == tab_after(self),
    {
        match self {
            Tab::Log => Tab::Files,
            Tab::Files => Tab::Bookmarks,
            Tab::Bookmarks => Tab::CommandLog,
            Tab::CommandLog => Tab::Log,
        }
    }

    /// The tab before this one, going round from the first to the last.
    pub fn prev(self) -> (r: Tab)
        ensures
            r == tab_before(self),
    {
        match self {
            Tab::Log => Tab::CommandLog,
            Tab::Files => Tab::Log,
            Tab::Bookmarks => Tab::Files,
            Tab::CommandLog => Tab::Bookmarks,
        }
    }

    /// The title of the tab.
    pub fn to_string(&self) -> (r: String)
        ensures
            r@ == tab_title(*self),
    {
        let s: &str = match self {
            Tab::Log => "Log",
            Tab::Files => "Files",
            Tab::Bookmarks => "Bookmarks",
            Tab::CommandLog => "Command Log",
        };
        proof {
            reveal_strlit("Log");
            reveal_strlit("Files");
            reveal_strlit("Bookmarks");
            reveal_strlit("Command Log");
        }
        s.to_owned()
    }
}

/// The tab that a digit key selects: `1` for the first tab up to `4`.
pub open spec fn tab_of_digit(c: char) -> Option<Tab> {
    if c == '1' {
        Some(Tab::Log)
    } else if c == '2' {
        Some(Tab::Files)
    } else if c == '3' {
        Some(Tab::Bookmarks)
    } else if c == '4' {
        Some(Tab::CommandLog)
    } else {
        None
    }
}

/// The tab that a digit key selects, if any.
pub fn tab_for_digit(c: char) -> (r: Option<Tab>)
    ensures
        r == tab_of_digit(c),
{
    if c == '1' {
        Some(Tab::Log)
    } else if c == '2' {
        Some(Tab::Files)
    } else if c == '3' {
        Some(Tab::Bookmarks)
    } else if c == '4' {
        Some(Tab::CommandLog)
    } else {
        None
    }
}

/// What a key that no tab and no popup handled does to the application.
#[derive(Clone, Copy, Debug, PartialEq, Eq, Structural)]
pub enum AppKeyAction {
    Quit,
    NextTab,
    PrevTab,
    SetTab(Tab),
    OpenCommandPopup,
    Ignore,
}

/// The action of an unhandled key: `q`, Esc or Ctrl+C quit; `l` and `h`
/// go to the next and previous tab; a digit picks a tab; `:` opens the
/// command popup. Keys that are not presses do nothing.
pub open spec fn app_key(key: KeyEvent) -> AppKeyAction {
    if key.kind != KeyEventKind::Press {
        AppKeyAction::Ignore
    } else if key.code == KeyCode::Char('q') || key.code == KeyCode::Esc || (key.modifiers.bits
        & CONTROL_BIT == CONTROL_BIT && key.code == KeyCode::Char('c')) {
        AppKeyAction::Quit
    } else if key.code == KeyCode::Char('l') {
        AppKeyAction::NextTab
    } else if key.code == KeyCode::Char('h') {
        AppKeyAction::PrevTab
    } else if key.code == KeyCode::Char(':') {
        AppKeyAction::OpenCommandPopup
    } else {
        match key.code {
            KeyCode::Char(c) => match tab_of_digit(c) {
                Some(t) => AppKeyAction::SetTab(t),
                None => AppKeyAction::Ignore,
            },
            _ => AppKeyAction::Ignore,
        }
    }
}

/// The application quits only on `q`, Esc or Ctrl+c, and a press of `q`
/// always quits; `l` goes to the next tab, `h` to the previous one, `:`
/// opens the command popup.
pub proof fn lemma_app_keys(key: KeyEvent)
    ensures
        app_key(key) == AppKeyAction::Quit ==> key.code == KeyCode::Char('q') || key.code == KeyCode::Esc
            || key.code == KeyCode::Char('c'),
        key.kind == KeyEventKind::Press && key.code == KeyCode::Char('q') ==> app_key(key) == AppKeyAction::Quit,
        key.kind == KeyEventKind::Press && key.code == KeyCode::Char('l') ==> app_key(key) == AppKeyAction::NextTab,
        key.kind == KeyEventKind::Press && key.code == KeyCode::Char('h') ==> app_key(key) == AppKeyAction::PrevTab,
        key.kind == KeyEventKind::Press && key.code == KeyCode::Char(':') ==> app_key(key)
            == AppKeyAction::OpenCommandPopup,
{
}

/// The action of a key that neither the current tab nor a popup handled.
pub fn app_key_action(key: KeyEvent) -> (r: AppKeyAction)
    ensures
        r == app_key(key),
{
    if key.kind != KeyEventKind::Press {
        return AppKeyAction::Ignore;
    }
    let ctrl = key.modifiers.contains(KeyModifiers::control());
    if key.code == KeyCode::Char('q') || key.code == KeyCode::Esc || (ctrl && key.code
        == KeyCode::Char('c')) {
        AppKeyAction::Quit
    } else if key.code == KeyCode::Char('l') {
        AppKeyAction::NextTab
    } else if key.code == KeyCode::Char('h') {
        AppKeyAction::PrevTab
    } else if key.code == KeyCode::Char(':') {
        AppKeyAction::OpenCommandPopup
    } else {
        match key.code {
            KeyCode::Char(c) => match tab_for_digit(c) {
                Some(t) => AppKeyAction::SetTab(t),
                None => AppKeyAction::Ignore,
            },
            _ => AppKeyAction::Ignore,
        }
    }
}

/// Whether a key that a popup did not handle closes it: a press of `y`,
/// `n`, `o`, `q`, Enter or Esc.
pub open spec fn closes_popup(key: KeyEvent) -> bool {
    &&& key.kind == KeyEventKind::Press
    &&& (key.code == KeyCode::Char('y') || key.code == KeyCode::Char('n') || key.code
        == KeyCode::Char('o') || key.code == KeyCode::Enter || key.code == KeyCode::Char('q')
        || key.code == KeyCode::Esc)
}

/// Whether a key that a popup did not handle closes it.
pub fn popup_closed_by(key: KeyEvent) -> (r: bool)
    ensures
        r == closes_popup(key),
{
    key.kind == KeyEventKind::Press && (key.code == KeyCode::Char('y') || key.code
        == KeyCode::Char('n') || key.code == KeyCode::Char('o') || key.code == KeyCode::Enter
        || key.code == KeyCode::Char('q') || key.code == KeyCode::Esc)
}

/// Going to the next tab and then to the previous one comes back, and so
/// does the other order.
pub proof fn lemma_next_prev_inverse(tab: Tab)
    ensures
        tab_before(tab_after(tab)) == tab,
        tab_after(tab_before(tab)) == tab,
{
}

/// Going to the next tab four times comes back to where it started, and
/// each tab sits at its own place in the row.
pub proof fn lemma_tabs_cycle(tab: Tab)
    ensures
        tab_after(tab_after(tab_after(tab_after(tab)))) == tab,
        tab_at(tab_index(tab)) == tab,
        0 <= tab_index(tab) < 4,
{
}


/// The digit keys `1` to `4` pick the tabs in the order they are shown.
pub proof fn lemma_digit_picks_tab(tab: Tab)
    ensures
        tab_of_digit(('1' as u32 + tab_index(tab)) as char) == Some(tab),
{
}

} // verus!
