//! What the log tab does with a key or an event of its bindings.
use vstd::prelude::*;

use crate::commander::ids::ChangeId;
use crate::commander::log::Head;
use crate::commander::CommandError;
use crate::keybinds::{KeyCode, KeyEvent, KeyEventKind, LogTabEvent};
use crate::ui::bookmarks_tab::TextEntryKey;
use crate::ui::panel::details_panel::{command_of_key, key_command};

verus! {

/// The confirmation popup that asks before creating a change.
pub const NEW_POPUP_ID: u16 = 1;
/// The confirmation popup that asks before editing a change.
pub const EDIT_POPUP_ID: u16 = 2;
/// The confirmation popup that asks before abandoning a change.
pub const ABANDON_POPUP_ID: u16 = 3;
/// The confirmation popup that asks before squashing into a change.
pub const SQUASH_POPUP_ID: u16 = 4;

/// Why a request on the selected change is refused.
#[derive(Clone, Copy, Debug, PartialEq, Eq, Structural)]
pub enum Refusal {
    SquashOntoCurrent,
    SquashImmutable,
    EditImmutable,
    AbandonImmutable,
    DescribeImmutable,
}

/// What the log tab does for an event of its bindings.
#[derive(Clone, Copy, Debug, PartialEq, Eq, Structural)]
pub enum LogTabStep {
    /// Move the selection in the log panel as the event says.
    Scroll(LogTabEvent),
    /// Select the working-copy change.
    FocusCurrent,
    /// Switch to the next diff format.
    ToggleDiffFormat,
    /// Read the log and the details again.
    Refresh,
    /// Ask before creating a change on the selected one.
    ConfirmNew { describe: bool },
    /// Open the rebase popup, from the working-copy change to the selected one.
    OpenRebase,
    /// Find the working-copy change, then decide with `squash_step`.
    CheckSquash { ignore_immutable: bool },
    /// Ask before squashing the working copy into the selected change.
    ConfirmSquash { ignore_immutable: bool },
    /// Ask before editing the selected change.
    ConfirmEdit { ignore_immutable: bool },
    /// Ask before abandoning the selected change.
    ConfirmAbandon,
    /// Tell the user why the request is refused.
    Refuse(Refusal),
    /// Start typing a description of the selected change.
    StartDescribe,
    /// Start typing the revset of the log.
    EditRevset,
    /// Open the popup that sets a bookmark on the selected change.
    SetBookmark,
    /// Show the files of the selected change.
    OpenFiles,
    /// Push to the git remote.
    Push { all_bookmarks: bool, allow_new: bool },
    /// Fetch from the git remote.
    Fetch { all_remotes: bool },
    /// Show the help popup.
    OpenHelp,
    /// Not handled: the application may use the key.
    NotHandled,
}

/// What the log tab does for `event`, the selected change being immutable
/// or not: changing an immutable change is refused unless the event says
/// to ignore that.
pub open spec fn log_tab_step(event: LogTabEvent, immutable: bool) -> LogTabStep {
    match event {
        LogTabEvent::ScrollDown | LogTabEvent::ScrollUp | LogTabEvent::ScrollDownHalf
        | LogTabEvent::ScrollUpHalf => LogTabStep::Scroll(event),
        LogTabEvent::FocusCurrent => LogTabStep::FocusCurrent,
        LogTabEvent::ToggleDiffFormat => LogTabStep::ToggleDiffFormat,
        LogTabEvent::Refresh => LogTabStep::Refresh,
        LogTabEvent::CreateNew { describe } => LogTabStep::ConfirmNew { describe },
        LogTabEvent::Rebase => LogTabStep::OpenRebase,
        LogTabEvent::Squash { ignore_immutable } => LogTabStep::CheckSquash { ignore_immutable },
        LogTabEvent::EditChange { ignore_immutable } => if immutable && !ignore_immutable {
            LogTabStep::Refuse(Refusal::EditImmutable)
        } else {
            LogTabStep::ConfirmEdit { ignore_immutable }
        },
        LogTabEvent::Abandon => if immutable {
            LogTabStep::Refuse(Refusal::AbandonImmutable)
        } else {
            LogTabStep::ConfirmAbandon
        },
        LogTabEvent::Describe => if immutable {
            LogTabStep::Refuse(Refusal::DescribeImmutable)
        } else {
            LogTabStep::StartDescribe
        },
        LogTabEvent::EditRevset => LogTabStep::EditRevset,
        LogTabEvent::SetBookmark => LogTabStep::SetBookmark,
        LogTabEvent::OpenFiles => LogTabStep::OpenFiles,
        LogTabEvent::Push { all_bookmarks, allow_new } => LogTabStep::Push { all_bookmarks, allow_new },
        LogTabEvent::Fetch { all_remotes } => LogTabStep::Fetch { all_remotes },
        LogTabEvent::OpenHelp => LogTabStep::OpenHelp,
        LogTabEvent::Save | LogTabEvent::Cancel | LogTabEvent::ClosePopup
        | LogTabEvent::Unbound => LogTabStep::NotHandled,
    }
}

/// What the log tab does for `event` with `head` selected.
pub fn handle_event(event: LogTabEvent, head: &Head) -> (r: LogTabStep)
    ensures
        r == log_tab_step(event, head.immutable),
{
    let immutable = head.immutable;
    match event {
        LogTabEvent::ScrollDown | LogTabEvent::ScrollUp | LogTabEvent::ScrollDownHalf
        | LogTabEvent::ScrollUpHalf => LogTabStep::Scroll(event),
        LogTabEvent::FocusCurrent => LogTabStep::FocusCurrent,
        LogTabEvent::ToggleDiffFormat => LogTabStep::ToggleDiffFormat,
        LogTabEvent::Refresh => LogTabStep::Refresh,
        LogTabEvent::CreateNew { describe } => LogTabStep::ConfirmNew { describe },
        LogTabEvent::Rebase => LogTabStep::OpenRebase,
        LogTabEvent::Squash { ignore_immutable } => LogTabStep::CheckSquash { ignore_immutable },
        LogTabEvent::EditChange { ignore_immutable } => if immutable && !ignore_immutable {
            LogTabStep::Refuse(Refusal::EditImmutable)
        } else {
            LogTabStep::ConfirmEdit { ignore_immutable }
        },
        LogTabEvent::Abandon => if immutable {
            LogTabStep::Refuse(Refusal::AbandonImmutable)
        } else {
            LogTabStep::ConfirmAbandon
        },
        LogTabEvent::Describe => if immutable {
            LogTabStep::Refuse(Refusal::DescribeImmutable)
        } else {
            LogTabStep::StartDescribe
        },
        LogTabEvent::EditRevset => LogTabStep::EditRevset,
        LogTabEvent::SetBookmark => LogTabStep::SetBookmark,
        LogTabEvent::OpenFiles => LogTabStep::OpenFiles,
        LogTabEvent::Push { all_bookmarks, allow_new } => LogTabStep::Push { all_bookmarks, allow_new },
        LogTabEvent::Fetch { all_remotes } => LogTabStep::Fetch { all_remotes },
        LogTabEvent::OpenHelp => LogTabStep::OpenHelp,
        LogTabEvent::Save | LogTabEvent::Cancel | LogTabEvent::ClosePopup
        | LogTabEvent::Unbound => LogTabStep::NotHandled,
    }
}

/// An immutable change is never changed without leave: editing it without
/// `ignore_immutable`, abandoning it or describing it is refused with the
/// matching reason, and no step on it asks to edit it without leave, to
/// abandon it or to describe it. A mutable change is never refused, and
/// every event but these three does the same on either.
pub proof fn lemma_immutable_change_refused(event: LogTabEvent)
    ensures
        log_tab_step((LogTabEvent::EditChange { ignore_immutable: false }), true) == LogTabStep::Refuse(
            Refusal::EditImmutable,
        ),
        log_tab_step(LogTabEvent::Abandon, true) == LogTabStep::Refuse(Refusal::AbandonImmutable),
        log_tab_step(LogTabEvent::Describe, true) == LogTabStep::Refuse(Refusal::DescribeImmutable),
        log_tab_step(event, true) != (LogTabStep::ConfirmEdit { ignore_immutable: false }),
        log_tab_step(event, true) != LogTabStep::ConfirmAbandon,
        log_tab_step(event, true) != LogTabStep::StartDescribe,
        !(log_tab_step(event, false) is Refuse),
        log_tab_step((LogTabEvent::EditChange { ignore_immutable: true }), true) == (LogTabStep::ConfirmEdit {
            ignore_immutable: true,
        }),
        (event is EditChange || event is Abandon || event is Describe) || (log_tab_step(event, true)
            == log_tab_step(event, false)),
{
}

/// Whether squashing the working copy into `head` is refused, and why: it
/// is the working copy itself (`current_change`), or it is immutable and
/// that is not to be ignored.
pub open spec fn squash_decision(head: (Seq<char>, Seq<char>, bool, bool), current_change: Seq<char>, ignore_immutable: bool) -> LogTabStep {
    if head.0 == current_change {
        LogTabStep::Refuse(Refusal::SquashOntoCurrent)
    } else if head.3 && !ignore_immutable {
        LogTabStep::Refuse(Refusal::SquashImmutable)
    } else {
        LogTabStep::ConfirmSquash { ignore_immutable }
    }
}

/// Squashing is only ever asked for into a change other than the working
/// copy, and into an immutable one only with leave; squashing into the
/// working copy itself is always refused.
pub proof fn lemma_squash_guarded(head: (Seq<char>, Seq<char>, bool, bool), current_change: Seq<char>, ignore_immutable: bool)
    ensures
        squash_decision(head, current_change, ignore_immutable) is ConfirmSquash ==> head.0 != current_change
            && (!head.3 || ignore_immutable),
        head.0 == current_change ==> squash_decision(head, current_change, ignore_immutable)
            == LogTabStep::Refuse(Refusal::SquashOntoCurrent),
        head.0 != current_change && head.3 && !ignore_immutable ==> squash_decision(
            head,
            current_change,
            ignore_immutable,
        ) == LogTabStep::Refuse(Refusal::SquashImmutable),
{
}

/// What squashing into `head` comes to, once the working-copy change is known.
pub fn squash_step(head: &Head, current_change: &ChangeId, ignore_immutable: bool) -> (r: LogTabStep)
    ensures
        r == squash_decision(head@, current_change@, ignore_immutable),
{
    if head.change_id.same_as(current_change) {
        LogTabStep::Refuse(Refusal::SquashOntoCurrent)
    } else if head.immutable && !ignore_immutable {
        LogTabStep::Refuse(Refusal::SquashImmutable)
    } else {
        LogTabStep::ConfirmSquash { ignore_immutable }
    }
}

/// What to show after a push or a fetch.
#[derive(Clone, Copy, Debug, PartialEq, Eq, Structural)]
pub enum CommandOutcome {
    /// Show the command's message.
    Message,
    /// Show the error.
    Error,
    /// Nothing to show: read the log again.
    Done,
}

/// What to show after a push or a fetch: its output if it printed any, its
/// error if it failed; otherwise nothing.
pub fn command_outcome(result: &Result<String, CommandError>) -> (r: CommandOutcome)
    ensures
        r == match result {
            Ok(s) => if s@.len() > 0 { CommandOutcome::Message } else { CommandOutcome::Done },
            Err(_) => CommandOutcome::Error,
        },
{
    match result {
        Ok(s) => if !s.as_str().is_empty() {
            CommandOutcome::Message
        } else {
            CommandOutcome::Done
        },
        Err(_) => CommandOutcome::Error,
    }
}

/// What the log tab's confirmation popup asked for, once answered yes.
#[derive(Clone, Copy, Debug, PartialEq, Eq, Structural)]
pub enum LogConfirmed {
    New,
    Edit,
    Abandon,
    Squash,
    Nothing,
}

/// The request that an answer from the popup with `popup_id` confirms: none
/// unless the answer is yes.
pub open spec fn log_confirmed_request(popup_id: u16, answer: Option<bool>) -> LogConfirmed {
    if answer != Some(true) {
        LogConfirmed::Nothing
    } else if popup_id == NEW_POPUP_ID {
        LogConfirmed::New
    } else if popup_id == EDIT_POPUP_ID {
        LogConfirmed::Edit
    } else if popup_id == ABANDON_POPUP_ID {
        LogConfirmed::Abandon
    } else if popup_id == SQUASH_POPUP_ID {
        LogConfirmed::Squash
    } else {
        LogConfirmed::Nothing
    }
}

/// Nothing is done without a yes, and a yes does what its popup asked:
/// the new, edit, abandon and squash popups are told apart.
pub proof fn lemma_log_confirmed_only_on_yes(popup_id: u16, answer: Option<bool>)
    ensures
        answer != Some(true) ==> log_confirmed_request(popup_id, answer) == LogConfirmed::Nothing,
        log_confirmed_request(NEW_POPUP_ID, Some(true)) == LogConfirmed::New,
        log_confirmed_request(EDIT_POPUP_ID, Some(true)) == LogConfirmed::Edit,
        log_confirmed_request(ABANDON_POPUP_ID, Some(true)) == LogConfirmed::Abandon,
        log_confirmed_request(SQUASH_POPUP_ID, Some(true)) == LogConfirmed::Squash,
        log_confirmed_request(popup_id, answer) == LogConfirmed::Abandon ==> popup_id == ABANDON_POPUP_ID,
{
}

/// The request that an answer from the log tab's popup confirms.
pub fn log_confirmed_by(popup_id: u16, answer: Option<bool>) -> (r: LogConfirmed)
    ensures
        r == log_confirmed_request(popup_id, answer),
{
    let yes = match answer {
        Some(b) => b,
        None => false,
    };
    if !yes {
        LogConfirmed::Nothing
    } else if popup_id == NEW_POPUP_ID {
        LogConfirmed::New
    } else if popup_id == EDIT_POPUP_ID {
        LogConfirmed::Edit
    } else if popup_id == ABANDON_POPUP_ID {
        LogConfirmed::Abandon
    } else if popup_id == SQUASH_POPUP_ID {
        LogConfirmed::Squash
    } else {
        LogConfirmed::Nothing
    }
}

/// Where the log tab sends a key when nothing is being typed and no other
/// popup is open.
#[derive(Clone, Copy, Debug, PartialEq, Eq, Structural)]
pub enum LogKeyRoute {
    /// Handled with nothing to do.
    Nothing,
    /// Close the confirmation popup.
    ClosePopup,
    /// Hand the key to the confirmation popup.
    PopupKey,
    /// Hand the key to the details panel, which handles it.
    Panel,
    /// Handle the event that the key is bound to.
    Event(LogTabEvent),
}

/// Where a key goes: only presses count; an open confirmation popup takes
/// every key (those bound to closing or cancelling close it); then the
/// details panel takes its keys; the rest are handled as the event they are
/// bound to (`event`).
pub open spec fn log_key_route(key: KeyEvent, popup_open: bool, event: LogTabEvent) -> LogKeyRoute {
    if key.kind != KeyEventKind::Press {
        LogKeyRoute::Nothing
    } else if popup_open {
        if event == LogTabEvent::ClosePopup || event == LogTabEvent::Cancel {
            LogKeyRoute::ClosePopup
        } else {
            LogKeyRoute::PopupKey
        }
    } else if key_command(key) is Some {
        LogKeyRoute::Panel
    } else {
        LogKeyRoute::Event(event)
    }
}

/// Where a key goes, `event` being what the bindings make of it.
pub fn route_key(key: KeyEvent, popup_open: bool, event: LogTabEvent) -> (r: LogKeyRoute)
    ensures
        r == log_key_route(key, popup_open, event),
{
    if key.kind != KeyEventKind::Press {
        LogKeyRoute::Nothing
    } else if popup_open {
        if event == LogTabEvent::ClosePopup || event == LogTabEvent::Cancel {
            LogKeyRoute::ClosePopup
        } else {
            LogKeyRoute::PopupKey
        }
    } else if command_of_key(key).is_some() {
        LogKeyRoute::Panel
    } else {
        LogKeyRoute::Event(event)
    }
}

/// While a description or a revset is typed, the key bound to saving
/// submits it and the one bound to cancelling drops it; other keys go to
/// the text.
pub open spec fn text_entry_key(event: LogTabEvent) -> TextEntryKey {
    match event {
        LogTabEvent::Save => TextEntryKey::Submit,
        LogTabEvent::Cancel => TextEntryKey::Cancel,
        _ => TextEntryKey::Type,
    }
}

/// What a key bound to `event` does while a text is typed.
pub fn text_entry_action(event: LogTabEvent) -> (r: TextEntryKey)
    ensures
        r == text_entry_key(event),
{
    match event {
        LogTabEvent::Save => TextEntryKey::Submit,
        LogTabEvent::Cancel => TextEntryKey::Cancel,
        _ => TextEntryKey::Type,
    }
}

} // verus!
