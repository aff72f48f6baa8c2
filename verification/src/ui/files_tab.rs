//! The files tab: which file of a change is selected, how the selection
//! moves, and what a key does.
use vstd::prelude::*;

use crate::commander::files::File;
use crate::commander::CommandError;
use crate::keybinds::{KeyCode, KeyEvent, KeyEventKind};
use crate::ui::details_panel::{command_of_key, key_command};
use crate::ui::utils::{first_where, lemma_first_where_is, lemma_first_where_none, opt_int, scroll_index, scrolled_index};

verus! {

/// The view of a file line: the line, its path if read, its kind of change.
pub type FileView = (Seq<char>, Option<Seq<char>>, Option<crate::commander::files::DiffType>);

/// The views of a list of files.
pub open spec fn file_views(v: Seq<File>) -> Seq<FileView> {
    v.map_values(|f: File| f@)
}

fn position_of_path(path: &String, files: &Vec<File>) -> (r: Option<usize>)
    ensures
        opt_int(r) == first_where(file_views(files@), |f: FileView| f.1 == Some(path@)),
        r matches Some(i) ==> i < files@.len(),
{
    let ghost fv = file_views(files@);
    let ghost p = |f: FileView| f.1 == Some(path@);
    let mut i: usize = 0;
    while i < files.len()
        invariant
            i <= files@.len(),
            fv == file_views(files@),
            p == (|f: FileView| f.1 == Some(path@)),
            forall|j: int| 0 <= j < i ==> !p(#[trigger] fv[j]),
        decreases files@.len() - i,
    {
        let found = match &files[i].path {
            Some(q) => *q == *path,
            None => false,
        };
        if found {
            proof {
                lemma_first_where_is(fv, p, i as int);
            }
            return Some(i);
        }
        i = i + 1;
    }
    proof {
        lemma_first_where_none(fv, p);
    }
    None
}

/// The place of the selected file among the files of the change: the
/// first file with that path. None without a selection or a list.
pub fn get_current_file_index(current_file: Option<&String>, files_output: &Result<Vec<File>, CommandError>) -> (r: Option<usize>)
    ensures
        match (current_file, files_output) {
            (Some(path), Ok(files)) => opt_int(r) == first_where(
                file_views(files@),
                |f: FileView| f.1 == Some(path@),
            ) && (r matches Some(i) ==> i < files@.len()),
            _ => r is None,
        },
{
    match (current_file, files_output) {
        (Some(path), Ok(files)) => position_of_path(path, files),
        _ => None,
    }
}

/// The path selected after moving `scroll` files from the selected one:
/// the file at the moved place, kept within the list (the first file when
/// the selected one is not listed), if it has a path. None (the selection
/// stays) otherwise.
pub fn scroll_files(current_file: Option<&String>, files_output: &Result<Vec<File>, CommandError>, scroll: isize) -> (r: Option<String>)
    ensures
        match files_output {
            Ok(files) => {
                let current = match current_file {
                    Some(path) => match first_where(file_views(files@), |f: FileView| f.1 == Some(path@)) {
                        Some(i) => Some(i as usize),
                        None => None,
                    },
                    None => None,
                };
                match scrolled_index(current, scroll, files@.len()) {
                    Some(i) => match files@[i].path {
                        Some(p) => r matches Some(q) && q@ == p@,
                        None => r is None,
                    },
                    None => r is None,
                }
            },
            Err(_) => r is None,
        },
{
    match files_output {
        Ok(files) => {
            let current = get_current_file_index(current_file, files_output);
            match scroll_index(current, scroll, files.len()) {
                Some(i) => match &files[i].path {
                    Some(p) => Some(p.clone()),
                    None => None,
                },
                None => None,
            }
        },
        Err(_) => None,
    }
}

/// What a key does in the files tab.
#[derive(Clone, Copy, Debug, PartialEq, Eq, Structural)]
pub enum FilesAction {
    /// Handled with nothing to do.
    Nothing,
    /// Not handled: the application may use it.
    NotHandled,
    /// Hand the key to the diff panel, which handles it.
    Panel,
    /// Move the selection by this many files.
    Scroll(isize),
    /// Switch the diff format.
    ToggleDiffFormat,
    /// Read the change again, at its latest version.
    Refresh,
    /// Show the files of the working-copy change.
    FocusCurrent,
    /// Show the help popup.
    ShowHelp,
}

/// What a key does in the files tab: only presses count; the diff panel
/// takes its keys; then `j`/`k` (or the arrows) move a file, `J`/`K` half
/// the list (`list_height` rows), `w` switches the diff format, `R` or F5
/// refresh, `@` goes to the working copy and `h` or `?` show help.
pub open spec fn files_key(key: KeyEvent, list_height: u16) -> FilesAction {
    if key.kind != KeyEventKind::Press {
        FilesAction::Nothing
    } else if key_command(key) is Some {
        FilesAction::Panel
    } else {
        match key.code {
            KeyCode::Char('j') | KeyCode::Down => FilesAction::Scroll(1isize),
            KeyCode::Char('k') | KeyCode::Up => FilesAction::Scroll(-1isize),
            KeyCode::Char('J') => FilesAction::Scroll((list_height / 2) as isize),
            KeyCode::Char('K') => FilesAction::Scroll((-(list_height / 2)) as isize),
            KeyCode::Char('w') => FilesAction::ToggleDiffFormat,
            KeyCode::Char('R') | KeyCode::F(5) => FilesAction::Refresh,
            KeyCode::Char('@') => FilesAction::FocusCurrent,
            KeyCode::Char('h') | KeyCode::Char('?') => FilesAction::ShowHelp,
            _ => FilesAction::NotHandled,
        }
    }
}

/// The list keys of the files tab: `j` or Down moves the selection down one
/// item, `k` or Up moves it up one, `J` moves it down half the list's height
/// and `K` up as much.
pub proof fn lemma_files_scroll_keys(key: KeyEvent, list_height: u16)
    requires
        key.kind == KeyEventKind::Press,
    ensures
        key.code == KeyCode::Char('j') || key.code == KeyCode::Down ==> files_key(key, list_height) == FilesAction::Scroll(1isize),
        key.code == KeyCode::Char('k') || key.code == KeyCode::Up ==> files_key(key, list_height) == FilesAction::Scroll(-1isize),
        key.code == KeyCode::Char('J') ==> (files_key(key, list_height) matches FilesAction::Scroll(d) && d == list_height / 2),
        key.code == KeyCode::Char('K') ==> (files_key(key, list_height) matches FilesAction::Scroll(d) && d == -((list_height / 2) as int)),
{
}

/// What a key does in the files tab.
pub fn files_key_action(key: KeyEvent, list_height: u16) -> (r: FilesAction)
    ensures
        r == files_key(key, list_height),
{
    if key.kind != KeyEventKind::Press {
        return FilesAction::Nothing;
    }
    if command_of_key(key).is_some() {
        return FilesAction::Panel;
    }
    let half: isize = (list_height / 2) as isize;
    match key.code {
        KeyCode::Char('j') | KeyCode::Down => FilesAction::Scroll(1),
        KeyCode::Char('k') | KeyCode::Up => FilesAction::Scroll(-1),
        KeyCode::Char('J') => FilesAction::Scroll(half),
        KeyCode::Char('K') => FilesAction::Scroll(-half),
        KeyCode::Char('w') => FilesAction::ToggleDiffFormat,
        KeyCode::Char('R') | KeyCode::F(5) => FilesAction::Refresh,
        KeyCode::Char('@') => FilesAction::FocusCurrent,
        KeyCode::Char('h') | KeyCode::Char('?') => FilesAction::ShowHelp,
        _ => FilesAction::NotHandled,
    }
}

/// What a key does in the files panel of the older layout: every kind of
/// key event counts, `p` switches the diff format, there is no help, and
/// other keys do nothing.
pub open spec fn older_files_key(key: KeyEvent, list_height: u16) -> FilesAction {
    if key_command(key) is Some {
        FilesAction::Panel
    } else {
        match key.code {
            KeyCode::Char('j') | KeyCode::Down => FilesAction::Scroll(1isize),
            KeyCode::Char('k') | KeyCode::Up => FilesAction::Scroll(-1isize),
            KeyCode::Char('J') => FilesAction::Scroll((list_height / 2) as isize),
            KeyCode::Char('K') => FilesAction::Scroll((-(list_height / 2)) as isize),
            KeyCode::Char('p') => FilesAction::ToggleDiffFormat,
            KeyCode::Char('R') | KeyCode::F(5) => FilesAction::Refresh,
            KeyCode::Char('@') => FilesAction::FocusCurrent,
            _ => FilesAction::Nothing,
        }
    }
}

/// What a key does in the files panel of the older layout.
pub fn older_files_key_action(key: KeyEvent, list_height: u16) -> (r: FilesAction)
    ensures
        r == older_files_key(key, list_height),
{
    if command_of_key(key).is_some() {
        return FilesAction::Panel;
    }
    let half: isize = (list_height / 2) as isize;
    match key.code {
        KeyCode::Char('j') | KeyCode::Down => FilesAction::Scroll(1),
        KeyCode::Char('k') | KeyCode::Up => FilesAction::Scroll(-1),
        KeyCode::Char('J') => FilesAction::Scroll(half),
        KeyCode::Char('K') => FilesAction::Scroll(-half),
        KeyCode::Char('p') => FilesAction::ToggleDiffFormat,
        KeyCode::Char('R') | KeyCode::F(5) => FilesAction::Refresh,
        KeyCode::Char('@') => FilesAction::FocusCurrent,
        _ => FilesAction::Nothing,
    }
}

} // verus!
