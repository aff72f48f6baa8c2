//! The command log tab: the commands that were run, newest first, and the
//! output of the selected one.
use vstd::prelude::*;

use crate::keybinds::{KeyCode, KeyEvent, KeyEventKind};
use crate::ui::details_panel::{command_of_key, key_command};

verus! {

/// The selection after moving it by `scroll` rows in a list of `len`
/// commands: from the selected row (the first when none is), moved with
/// the bounds of a `usize`, and no further than the last row.
pub open spec fn scrolled_command(selected: Option<usize>, scroll: isize, len: nat) -> int {
    let moved = match selected {
        Some(s) => {
            let v = s + scroll;
            if v < 0 { 0 } else if v > usize::MAX { usize::MAX as int } else { v }
        },
        None => 0,
    };
    if moved <= len - 1 { moved } else { len - 1 }
}

/// The row selected after moving the selection by `scroll` rows in a list
/// of `len` commands; the list must not be empty.
pub fn scroll_commands(selected: Option<usize>, scroll: isize, len: usize) -> (r: usize)
    requires
        len >= 1,
    ensures
        r == scrolled_command(selected, scroll, len as nat),
        r < len,
{
    let last = len - 1;
    let moved: usize = match selected {
        Some(s) => {
            if scroll >= 0 {
                let d = scroll as usize;
                if d > usize::MAX - s { usize::MAX } else { s + d }
            } else {
                let back: usize = (-(scroll + 1)) as usize + 1;
                if back >= s { 0 } else { s - back }
            }
        },
        None => 0,
    };
    if moved <= last { moved } else { last }
}

/// The entry of the history (oldest first, `len` long) shown on row
/// `selected` of the list, which shows the newest first.
pub fn history_entry(selected: usize, len: usize) -> (r: Option<usize>)
    ensures
        r == (if selected < len { Some((len - 1 - selected) as usize) } else { None }),
{
    if selected < len { Some(len - 1 - selected) } else { None }
}

/// What a key does in the command log tab.
#[derive(Clone, Copy, Debug, PartialEq, Eq, Structural)]
pub enum CommandLogAction {
    /// Handled with nothing to do.
    Nothing,
    /// Not handled: the application may use it.
    NotHandled,
    /// Hand the key to the output panel, which handles it.
    Panel,
    /// Move the selection by this many rows.
    Scroll(isize),
    /// Show the help popup.
    ShowHelp,
}

/// What a key does in the command log tab: only presses count; the output
/// panel takes its keys; then `j`/`k` (or the arrows) move a row, `J`/`K`
/// half the list (`list_height` rows), `@` goes to the newest command and
/// `h` or `?` show help.
pub open spec fn command_log_key(key: KeyEvent, list_height: u16) -> CommandLogAction {
    if key.kind != KeyEventKind::Press {
        CommandLogAction::Nothing
    } else if key_command(key) is Some {
        CommandLogAction::Panel
    } else {
        match key.code {
            KeyCode::Char('j') | KeyCode::Down => CommandLogAction::Scroll(1isize),
            KeyCode::Char('k') | KeyCode::Up => CommandLogAction::Scroll(-1isize),
            KeyCode::Char('J') => CommandLogAction::Scroll((list_height / 2) as isize),
            KeyCode::Char('K') => CommandLogAction::Scroll((-(list_height / 2)) as isize),
            KeyCode::Char('@') => CommandLogAction::Scroll(isize::MIN),
            KeyCode::Char('h') | KeyCode::Char('?') => CommandLogAction::ShowHelp,
            _ => CommandLogAction::NotHandled,
        }
    }
}

/// The list keys of the command log: `j` or Down moves the selection down one
/// item, `k` or Up moves it up one, `J` moves it down half the list's height
/// and `K` up as much.
pub proof fn lemma_command_log_scroll_keys(key: KeyEvent, list_height: u16)
    requires
        key.kind == KeyEventKind::Press,
    ensures
        key.code == KeyCode::Char('j') || key.code == KeyCode::Down ==> command_log_key(key, list_height) == CommandLogAction::Scroll(1isize),
        key.code == KeyCode::Char('k') || key.code == KeyCode::Up ==> command_log_key(key, list_height) == CommandLogAction::Scroll(-1isize),
        key.code == KeyCode::Char('J') ==> (command_log_key(key, list_height) matches CommandLogAction::Scroll(d) && d == list_height / 2),
        key.code == KeyCode::Char('K') ==> (command_log_key(key, list_height) matches CommandLogAction::Scroll(d) && d == -((list_height / 2) as int)),
{
}

/// What a key does in the command log tab.
pub fn command_log_key_action(key: KeyEvent, list_height: u16) -> (r: CommandLogAction)
    ensures
        r == command_log_key(key, list_height),
{
    if key.kind != KeyEventKind::Press {
        return CommandLogAction::Nothing;
    }
    if command_of_key(key).is_some() {
        return CommandLogAction::Panel;
    }
    let half: isize = (list_height / 2) as isize;
    match key.code {
        KeyCode::Char('j') | KeyCode::Down => CommandLogAction::Scroll(1),
        KeyCode::Char('k') | KeyCode::Up => CommandLogAction::Scroll(-1),
        KeyCode::Char('J') => CommandLogAction::Scroll(half),
        KeyCode::Char('K') => CommandLogAction::Scroll(-half),
        KeyCode::Char('@') => CommandLogAction::Scroll(isize::MIN),
        KeyCode::Char('h') | KeyCode::Char('?') => CommandLogAction::ShowHelp,
        _ => CommandLogAction::NotHandled,
    }
}

/// A part of the report on a finished command.
#[derive(Clone, Copy, Debug, PartialEq, Eq, Structural)]
pub enum OutputPart {
    /// The command, its status, time and duration, and a blank line.
    Summary,
    /// The title of the standard output, a blank line, and the output.
    Output,
    /// Two blank lines between the outputs.
    Gap,
    /// The title of the error output, a blank line, and the output.
    ErrorOutput,
    /// A note that there was no output.
    NoOutput,
}

/// The parts of the report on a command, given whether it printed to each
/// stream: the outputs it has, with a gap between two, or a note.
pub open spec fn report_parts(has_stdout: bool, has_stderr: bool) -> Seq<OutputPart> {
    seq![OutputPart::Summary]
        + (if has_stdout { seq![OutputPart::Output] } else { seq![] })
        + (if has_stdout && has_stderr { seq![OutputPart::Gap] } else { seq![] })
        + (if has_stderr { seq![OutputPart::ErrorOutput] } else { seq![] })
        + (if !has_stdout && !has_stderr { seq![OutputPart::NoOutput] } else { seq![] })
}

/// The parts of the report on a command.
pub fn output_parts(has_stdout: bool, has_stderr: bool) -> (r: Vec<OutputPart>)
    ensures
        r@ == report_parts(has_stdout, has_stderr),
{
    let mut r = vec![OutputPart::Summary];
    if has_stdout {
        r.push(OutputPart::Output);
    }
    if has_stdout && has_stderr {
        r.push(OutputPart::Gap);
    }
    if has_stderr {
        r.push(OutputPart::ErrorOutput);
    }
    if !has_stdout && !has_stderr {
        r.push(OutputPart::NoOutput);
    }
    assert(r@ =~= report_parts(has_stdout, has_stderr));
    r
}

} // verus!
