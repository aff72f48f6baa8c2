//! What a key does in the log panel of the older layout, which reads keys
//! directly rather than through bindings. It finds and moves its selection
//! as the log panel does.
use vstd::prelude::*;

use crate::keybinds::{KeyCode, KeyEvent, LogTabEvent};
use crate::ui::details_panel::{command_of_key, key_command};

pub use crate::ui::panel::log_panel::{get_head_index, scroll_relative};

verus! {

/// The log event that a key stands for in the older log panel: `j`/`k`
/// (or the arrows) and `J`/`K` scroll, `@` selects the working copy, `p`
/// switches the diff format, `R` or F5 refresh, `n`/`N` create a change
/// (`N` then describes it), `e` edits, `a` abandons, `d` describes, `r`
/// edits the revset and Enter shows the files.
pub open spec fn older_log_event(code: KeyCode) -> Option<LogTabEvent> {
    match code {
        KeyCode::Char('j') | KeyCode::Down => Some(LogTabEvent::ScrollDown),
        KeyCode::Char('k') | KeyCode::Up => Some(LogTabEvent::ScrollUp),
        KeyCode::Char('J') => Some(LogTabEvent::ScrollDownHalf),
        KeyCode::Char('K') => Some(LogTabEvent::ScrollUpHalf),
        KeyCode::Char('@') => Some(LogTabEvent::FocusCurrent),
        KeyCode::Char('p') => Some(LogTabEvent::ToggleDiffFormat),
        KeyCode::Char('R') | KeyCode::F(5) => Some(LogTabEvent::Refresh),
        KeyCode::Char('n') => Some(LogTabEvent::CreateNew { describe: false }),
        KeyCode::Char('N') => Some(LogTabEvent::CreateNew { describe: true }),
        KeyCode::Char('e') => Some(LogTabEvent::EditChange { ignore_immutable: false }),
        KeyCode::Char('a') => Some(LogTabEvent::Abandon),
        KeyCode::Char('d') => Some(LogTabEvent::Describe),
        KeyCode::Char('r') => Some(LogTabEvent::EditRevset),
        KeyCode::Enter => Some(LogTabEvent::OpenFiles),
        _ => None,
    }
}

/// Where the older log panel sends a key when nothing is being typed.
#[derive(Clone, Copy, Debug, PartialEq, Eq, Structural)]
pub enum OlderLogRoute {
    /// Nothing to do.
    Nothing,
    /// The confirmation popup used the key.
    PopupUsed,
    /// The message popup took the key and closes.
    CloseMessage,
    /// The details panel handles the key.
    Panel,
    /// Handle this event.
    Event(LogTabEvent),
}

/// Where a key goes: an open confirmation popup that uses it
/// (`popup_used`) takes it; an open message popup takes every key and
/// closes on one it used (`message_used`); then the details panel takes
/// its keys; the rest are the events of `older_log_event`.
pub open spec fn older_log_route(
    key: KeyEvent,
    popup_used: bool,
    message_open: bool,
    message_used: bool,
) -> OlderLogRoute {
    if popup_used {
        OlderLogRoute::PopupUsed
    } else if message_open {
        if message_used {
            OlderLogRoute::CloseMessage
        } else {
            OlderLogRoute::Nothing
        }
    } else if key_command(key) is Some {
        OlderLogRoute::Panel
    } else {
        match older_log_event(key.code) {
            Some(e) => OlderLogRoute::Event(e),
            None => OlderLogRoute::Nothing,
        }
    }
}

/// Where the older log panel sends a key.
pub fn older_log_key(key: KeyEvent, popup_used: bool, message_open: bool, message_used: bool) -> (r: OlderLogRoute)
    ensures
        r == older_log_route(key, popup_used, message_open, message_used),
{
    if popup_used {
        return OlderLogRoute::PopupUsed;
    }
    if message_open {
        return if message_used {
            OlderLogRoute::CloseMessage
        } else {
            OlderLogRoute::Nothing
        };
    }
    if command_of_key(key).is_some() {
        return OlderLogRoute::Panel;
    }
    let e = match key.code {
        KeyCode::Char('j') | KeyCode::Down => Some(LogTabEvent::ScrollDown),
        KeyCode::Char('k') | KeyCode::Up => Some(LogTabEvent::ScrollUp),
        KeyCode::Char('J') => Some(LogTabEvent::ScrollDownHalf),
        KeyCode::Char('K') => Some(LogTabEvent::ScrollUpHalf),
        KeyCode::Char('@') => Some(LogTabEvent::FocusCurrent),
        KeyCode::Char('p') => Some(LogTabEvent::ToggleDiffFormat),
        KeyCode::Char('R') | KeyCode::F(5) => Some(LogTabEvent::Refresh),
        KeyCode::Char('n') => Some(LogTabEvent::CreateNew { describe: false }),
        KeyCode::Char('N') => Some(LogTabEvent::CreateNew { describe: true }),
        KeyCode::Char('e') => Some(LogTabEvent::EditChange { ignore_immutable: false }),
        KeyCode::Char('a') => Some(LogTabEvent::Abandon),
        KeyCode::Char('d') => Some(LogTabEvent::Describe),
        KeyCode::Char('r') => Some(LogTabEvent::EditRevset),
        KeyCode::Enter => Some(LogTabEvent::OpenFiles),
        _ => None,
    };
    match e {
        Some(e) => OlderLogRoute::Event(e),
        None => OlderLogRoute::Nothing,
    }
}

} // verus!
