//! What a key does in the branches panel: the list keys of the bookmarks
//! tab, with `p` for the diff format and a message popup that takes keys
//! until closed. It finds its selection as the branches tab does.
use vstd::prelude::*;

use crate::keybinds::{KeyCode, KeyEvent};
use crate::ui::bookmarks_tab::{RefSel, RefTabAction};
use crate::ui::details_panel::{command_of_key, key_command};

pub use crate::ui::branches_tab::{get_current_branch_index, scroll_branches};

verus! {

/// What a key does in the branches panel when no name is being typed: an
/// open confirmation popup takes every key (`q` and Esc close it); an open
/// message popup takes every key and closes on `q`, Esc, or a key it used
/// (`message_used`); then the details panel takes its keys; then the list
/// keys apply to the selection, `list_height` rows high. Tracking needs a
/// remote ref.
pub open spec fn branches_key(
    key: KeyEvent,
    sel: RefSel,
    list_height: u16,
    popup_open: bool,
    message_open: bool,
    message_used: bool,
) -> RefTabAction {
    let parsed = sel is Parsed;
    let remote = sel matches RefSel::Parsed { has_remote, .. } && has_remote;
    if popup_open {
        if key.code == KeyCode::Char('q') || key.code == KeyCode::Esc {
            RefTabAction::ClosePopup
        } else {
            RefTabAction::PopupKey
        }
    } else if message_open {
        if key.code == KeyCode::Char('q') || key.code == KeyCode::Esc || message_used {
            RefTabAction::CloseMessage
        } else {
            RefTabAction::Nothing
        }
    } else if key_command(key) is Some {
        RefTabAction::Panel
    } else {
        match key.code {
            KeyCode::Char('j') | KeyCode::Down => RefTabAction::Scroll(1isize),
            KeyCode::Char('k') | KeyCode::Up => RefTabAction::Scroll(-1isize),
            KeyCode::Char('J') => RefTabAction::Scroll((list_height / 2) as isize),
            KeyCode::Char('K') => RefTabAction::Scroll((-(list_height / 2)) as isize),
            KeyCode::Char('p') => RefTabAction::ToggleDiffFormat,
            KeyCode::Char('R') => RefTabAction::Refresh,
            KeyCode::F(5) => RefTabAction::Refresh,
            KeyCode::Char('a') => RefTabAction::ToggleShowAll,
            KeyCode::Char('c') => RefTabAction::StartCreate,
            KeyCode::Char('r') => if parsed { RefTabAction::StartRename } else { RefTabAction::Nothing },
            KeyCode::Char('d') => if parsed { RefTabAction::ConfirmDelete } else { RefTabAction::Nothing },
            KeyCode::Char('f') => if parsed { RefTabAction::ConfirmForget } else { RefTabAction::Nothing },
            KeyCode::Char('t') => if remote { RefTabAction::Track } else { RefTabAction::Nothing },
            KeyCode::Char('T') => if remote { RefTabAction::Untrack } else { RefTabAction::Nothing },
            _ => RefTabAction::NotHandled,
        }
    }
}

/// What a key does in the branches panel when no name is being typed.
pub fn branches_key_action(
    key: KeyEvent,
    sel: RefSel,
    list_height: u16,
    popup_open: bool,
    message_open: bool,
    message_used: bool,
) -> (r: RefTabAction)
    ensures
        r == branches_key(key, sel, list_height, popup_open, message_open, message_used),
{
    let parsed = match sel {
        RefSel::Parsed { .. } => true,
        _ => false,
    };
    let remote = match sel {
        RefSel::Parsed { has_remote, .. } => has_remote,
        _ => false,
    };
    if popup_open {
        return if key.code == KeyCode::Char('q') || key.code == KeyCode::Esc {
            RefTabAction::ClosePopup
        } else {
            RefTabAction::PopupKey
        };
    }
    if message_open {
        return if key.code == KeyCode::Char('q') || key.code == KeyCode::Esc || message_used {
            RefTabAction::CloseMessage
        } else {
            RefTabAction::Nothing
        };
    }
    if command_of_key(key).is_some() {
        return RefTabAction::Panel;
    }
    let half: isize = (list_height / 2) as isize;
    match key.code {
        KeyCode::Char('j') | KeyCode::Down => RefTabAction::Scroll(1),
        KeyCode::Char('k') | KeyCode::Up => RefTabAction::Scroll(-1),
        KeyCode::Char('J') => RefTabAction::Scroll(half),
        KeyCode::Char('K') => RefTabAction::Scroll(-half),
        KeyCode::Char('p') => RefTabAction::ToggleDiffFormat,
        KeyCode::Char('R') => RefTabAction::Refresh,
        KeyCode::F(5) => RefTabAction::Refresh,
        KeyCode::Char('a') => RefTabAction::ToggleShowAll,
        KeyCode::Char('c') => RefTabAction::StartCreate,
        KeyCode::Char('r') => if parsed { RefTabAction::StartRename } else { RefTabAction::Nothing },
        KeyCode::Char('d') => if parsed { RefTabAction::ConfirmDelete } else { RefTabAction::Nothing },
        KeyCode::Char('f') => if parsed { RefTabAction::ConfirmForget } else { RefTabAction::Nothing },
        KeyCode::Char('t') => if remote { RefTabAction::Track } else { RefTabAction::Nothing },
        KeyCode::Char('T') => if remote { RefTabAction::Untrack } else { RefTabAction::Nothing },
        _ => RefTabAction::NotHandled,
    }
}

} // verus!
