//! What the bookmarks tab does with a key, and how it finds its selection
//! in a fresh list.
use vstd::prelude::*;

use crate::commander::bookmarks::{BookmarkLine, RefView};
use crate::commander::version::{is_white_space, white_space};
use crate::commander::CommandError;
use crate::keybinds::{KeyCode, KeyEvent, KeyEventKind, KeyModifiers, CONTROL_BIT};
use crate::strings::{contains_text, has_infix, join_strings, join_with, views};
use crate::ui::details_panel::{command_of_key, key_command};
use crate::ui::utils::{scroll_index, scrolled_index};

verus! {

/// What jj older than 0.18 says when it is given a template with `-T`.
pub const TEMPLATE_UNSUPPORTED: &'static str = "unexpected argument '-T' found";

/// Whether a failed listing calls for the hint to update jj: jj ran and
/// complained that it does not know `-T`.
pub open spec fn needs_update_hint(err: CommandError) -> bool {
    match err {
        CommandError::Status(output, _) => has_infix(output@, TEMPLATE_UNSUPPORTED@),
        _ => false,
    }
}

/// Whether the error of a bookmark or branch listing calls for the hint to
/// update jj (see `needs_update_hint`).
pub fn update_hint_needed(err: &CommandError) -> (r: bool)
    ensures
        r == needs_update_hint(*err),
{
    match err {
        CommandError::Status(output, _) => contains_text(output.as_str(), TEMPLATE_UNSUPPORTED),
        _ => false,
    }
}

/// The confirmation popup that asks before deleting.
pub const DELETE_BRANCH_POPUP_ID: u16 = 1;
/// The confirmation popup that asks before forgetting.
pub const FORGET_BRANCH_POPUP_ID: u16 = 2;
/// The confirmation popup that asks before creating a change.
pub const NEW_POPUP_ID: u16 = 3;
/// The confirmation popup that asks before editing a change.
pub const EDIT_POPUP_ID: u16 = 4;

/// A line of a list of refs: its text, and the ref read from it if any.
pub type RefLineView = (Seq<char>, Option<RefView>);

/// Whether two list lines stand for the same ref: two refs with the same
/// name and remote, or two unreadable lines with the same text.
pub open spec fn same_ref_line(a: RefLineView, b: RefLineView) -> bool {
    match (a.1, b.1) {
        (Some(x), Some(y)) => x.0 == y.0 && x.1 == y.1,
        (None, None) => a.0 == b.0,
        _ => false,
    }
}

/// `i` is the first place of `lines` that holds the same ref as `line`.
pub open spec fn first_same_line(lines: Seq<RefLineView>, line: RefLineView, i: int) -> bool {
    &&& 0 <= i < lines.len()
    &&& same_ref_line(line, lines[i])
    &&& forall|j: int| 0 <= j < i ==> !same_ref_line(line, #[trigger] lines[j])
}

/// No place of `lines` holds the same ref as `line`.
pub open spec fn no_same_line(lines: Seq<RefLineView>, line: RefLineView) -> bool {
    forall|j: int| 0 <= j < lines.len() ==> !same_ref_line(line, #[trigger] lines[j])
}

/// The views of a list of bookmark lines.
pub open spec fn line_views(v: Seq<BookmarkLine>) -> Seq<RefLineView> {
    v.map_values(|l: BookmarkLine| l@)
}

fn same_line(a: &BookmarkLine, b: &BookmarkLine) -> (r: bool)
    ensures
        r == same_ref_line(a@, b@),
{
    match (a, b) {
        (BookmarkLine::Parsed { bookmark: x, .. }, BookmarkLine::Parsed { bookmark: y, .. }) => {
            x.name == y.name && match (&x.remote, &y.remote) {
                (Some(p), Some(q)) => *p == *q,
                (None, None) => true,
                _ => false,
            }
        },
        (BookmarkLine::Unparsable(x), BookmarkLine::Unparsable(y)) => *x == *y,
        _ => false,
    }
}

fn position_of_line(c: &BookmarkLine, list: &Vec<BookmarkLine>) -> (r: Option<usize>)
    ensures
        match r {
            Some(i) => first_same_line(line_views(list@), c@, i as int),
            None => no_same_line(line_views(list@), c@),
        },
{
    let ghost lv = line_views(list@);
    let mut i: usize = 0;
    while i < list.len()
        invariant
            i <= list@.len(),
            lv == line_views(list@),
            forall|j: int| 0 <= j < i ==> !same_ref_line(c@, #[trigger] lv[j]),
        decreases list@.len() - i,
    {
        if same_line(c, &list[i]) {
            assert(lv[i as int] == list@[i as int]@);
            return Some(i);
        }
        i = i + 1;
    }
    None
}

/// The place in the listed bookmarks of the selected one: the first line
/// with the same name and remote, or the same text for a line that could
/// not be read. None without a selection, without a match, or when the
/// list could not be had.
pub fn get_current_bookmark_index(
    current_bookmark: Option<&BookmarkLine>,
    bookmarks_output: &Result<Vec<BookmarkLine>, CommandError>,
) -> (r: Option<usize>)
    ensures
        match (current_bookmark, bookmarks_output) {
            (Some(c), Ok(list)) => match r {
                Some(i) => first_same_line(line_views(list@), c@, i as int),
                None => no_same_line(line_views(list@), c@),
            },
            _ => r is None,
        },
{
    match (current_bookmark, bookmarks_output) {
        (Some(c), Ok(list)) => position_of_line(c, list),
        _ => None,
    }
}

/// The place of the first line of `lines` that holds the same ref as
/// `line`, if any.
pub open spec fn first_same_index(lines: Seq<RefLineView>, line: RefLineView) -> Option<int> {
    if exists|i: int| first_same_line(lines, line, i) {
        Some(choose|i: int| first_same_line(lines, line, i))
    } else {
        None
    }
}

/// At most one place is the first one that holds a given ref.
pub proof fn lemma_first_same_unique(lines: Seq<RefLineView>, line: RefLineView, i: int)
    requires
        first_same_line(lines, line, i),
    ensures
        first_same_index(lines, line) == Some(i),
{
    let k = choose|k: int| first_same_line(lines, line, k);
    assert(first_same_line(lines, line, k));
    if k < i {
        assert(!same_ref_line(line, lines[k]));
    }
    if i < k {
        assert(!same_ref_line(line, lines[i]));
    }
}

/// The bookmark selected after moving `scroll` lines from the selected
/// one, as the list keys do: the place of the selected bookmark moved and
/// kept within the list, or the first bookmark when the selected one is
/// not listed; None for an empty list or a list that could not be had.
pub fn scroll_bookmarks(
    current_bookmark: Option<&BookmarkLine>,
    bookmarks_output: &Result<Vec<BookmarkLine>, CommandError>,
    scroll: isize,
) -> (r: Option<usize>)
    ensures
        match bookmarks_output {
            Ok(list) => {
                let current = match current_bookmark {
                    Some(c) => match first_same_index(line_views(list@), c@) {
                        Some(i) => Some(i as usize),
                        None => None,
                    },
                    None => None,
                };
                r == match scrolled_index(current, scroll, list@.len()) {
                    Some(i) => Some(i as usize),
                    None => None::<usize>,
                }
            },
            Err(_) => r is None,
        },
        r matches Some(i) ==> bookmarks_output matches Ok(list) && i < list@.len(),
{
    let current = get_current_bookmark_index(current_bookmark, bookmarks_output);
    match bookmarks_output {
        Ok(list) => {
            proof {
                if let Some(c) = current_bookmark {
                    match current {
                        Some(i) => lemma_first_same_unique(line_views(list@), c@, i as int),
                        None => {
                            if exists|i: int| first_same_line(line_views(list@), c@, i) {
                                let i = choose|i: int| first_same_line(line_views(list@), c@, i);
                                assert(!same_ref_line(c@, line_views(list@)[i]));
                            }
                        },
                    }
                }
            }
            scroll_index(current, scroll, list.len())
        },
        Err(_) => None,
    }
}

/// `i` is the first line of `lines` that holds a ref named `name`.
pub open spec fn first_named(lines: Seq<RefLineView>, name: Seq<char>, i: int) -> bool {
    &&& 0 <= i < lines.len()
    &&& lines[i].1 matches Some(b) && b.0 == name
    &&& forall|j: int| 0 <= j < i ==> !(#[trigger] lines[j].1 matches Some(b) && b.0 == name)
}

/// The first listed bookmark named `name`, as picked after creating or
/// renaming one.
pub fn find_bookmark_named(bookmarks: &Vec<BookmarkLine>, name: &String) -> (r: Option<usize>)
    ensures
        match r {
            Some(i) => first_named(line_views(bookmarks@), name@, i as int),
            None => forall|j: int| 0 <= j < bookmarks@.len() ==> !(#[trigger] line_views(bookmarks@)[j].1 matches Some(b) && b.0 == name@),
        },
{
    let ghost lv = line_views(bookmarks@);
    let mut i: usize = 0;
    while i < bookmarks.len()
        invariant
            i <= bookmarks@.len(),
            lv == line_views(bookmarks@),
            forall|j: int| 0 <= j < i ==> !(#[trigger] lv[j].1 matches Some(b) && b.0 == name@),
        decreases bookmarks@.len() - i,
    {
        match &bookmarks[i] {
            BookmarkLine::Parsed { bookmark, .. } => {
                if bookmark.name == *name {
                    return Some(i);
                }
            },
            BookmarkLine::Unparsable(_) => {},
        }
        i = i + 1;
    }
    None
}

/// What is selected in a list of refs, as far as the keys care.
#[derive(Clone, Copy, Debug, PartialEq, Eq, Structural)]
pub enum RefSel {
    Nothing,
    Unparsable,
    Parsed { has_remote: bool, present: bool },
}

/// What is selected, read from the selected line.
pub open spec fn ref_sel(line: Option<RefLineView>) -> RefSel {
    match line {
        None => RefSel::Nothing,
        Some(l) => match l.1 {
            None => RefSel::Unparsable,
            Some(b) => RefSel::Parsed { has_remote: b.1 is Some, present: b.2 },
        },
    }
}

/// The view of an optional selected bookmark line.
pub open spec fn opt_line_view(line: Option<&BookmarkLine>) -> Option<RefLineView> {
    match line {
        Some(l) => Some(l@),
        None => None,
    }
}

/// What is selected, read from the selected bookmark line.
pub fn bookmark_sel(line: Option<&BookmarkLine>) -> (r: RefSel)
    ensures
        r == ref_sel(opt_line_view(line)),
{
    match line {
        None => RefSel::Nothing,
        Some(BookmarkLine::Unparsable(_)) => RefSel::Unparsable,
        Some(BookmarkLine::Parsed { bookmark, .. }) => RefSel::Parsed {
            has_remote: bookmark.remote.is_some(),
            present: bookmark.present,
        },
    }
}

/// What a key does in a tab that lists refs.
#[derive(Clone, Copy, Debug, PartialEq, Eq, Structural)]
pub enum RefTabAction {
    /// Handled with nothing to do.
    Nothing,
    /// Not handled: the application may use it.
    NotHandled,
    /// Close the confirmation popup.
    ClosePopup,
    /// Hand the key to the confirmation popup.
    PopupKey,
    /// Close the message popup.
    CloseMessage,
    /// Hand the key to the details panel, which handles it.
    Panel,
    /// Move the selection by this many lines.
    Scroll(isize),
    /// Switch the diff format of the details.
    ToggleDiffFormat,
    /// Read the list and the details again.
    Refresh,
    /// Show remote refs too, or stop showing them.
    ToggleShowAll,
    /// Ask for the name of a new ref.
    StartCreate,
    /// Ask for a new name for the selected ref.
    StartRename,
    /// Ask before deleting the selected ref.
    ConfirmDelete,
    /// Ask before forgetting the selected ref.
    ConfirmForget,
    /// Track the selected remote ref.
    Track,
    /// Stop tracking the selected remote ref.
    Untrack,
    /// Ask before creating a change on the selected ref; describe it after
    /// if `describe`.
    ConfirmNew { describe: bool },
    /// Edit the change of the selected ref (if it is not immutable).
    Edit,
    /// Show the change of the selected ref in the log.
    ViewLog,
    /// Show the help popup.
    ShowHelp,
}

/// Whether Ctrl is held in `key`.
pub open spec fn ctrl(key: KeyEvent) -> bool {
    key.modifiers.bits & CONTROL_BIT == CONTROL_BIT
}

/// What a key does in the bookmarks tab (and the branches tab) when no
/// name or description is being typed: only presses count; an open
/// confirmation popup takes every key (`q` and Esc close it); then the
/// details panel takes its keys; then the list keys apply to the
/// selection, `list_height` rows high.
pub open spec fn ref_tab_key(key: KeyEvent, sel: RefSel, list_height: u16, popup_open: bool) -> RefTabAction {
    let parsed = sel is Parsed;
    let present = sel matches RefSel::Parsed { present, .. } && present;
    let remote_present = sel matches RefSel::Parsed { has_remote, present } && has_remote && present;
    if key.kind != KeyEventKind::Press {
        RefTabAction::Nothing
    } else if popup_open {
        if key.code == KeyCode::Char('q') || key.code == KeyCode::Esc {
            RefTabAction::ClosePopup
        } else {
            RefTabAction::PopupKey
        }
    } else if key_command(key) is Some {
        RefTabAction::Panel
    } else {
        match key.code {
            KeyCode::Char('j') | KeyCode::Down => RefTabAction::Scroll(1isize),
            KeyCode::Char('k') | KeyCode::Up => RefTabAction::Scroll(-1isize),
            KeyCode::Char('J') => RefTabAction::Scroll((list_height / 2) as isize),
            KeyCode::Char('K') => RefTabAction::Scroll((-(list_height / 2)) as isize),
            KeyCode::Char('w') => RefTabAction::ToggleDiffFormat,
            KeyCode::Char('R') => RefTabAction::Refresh,
            KeyCode::F(5) => RefTabAction::Refresh,
            KeyCode::Char('a') => RefTabAction::ToggleShowAll,
            KeyCode::Char('c') => RefTabAction::StartCreate,
            KeyCode::Char('r') => if parsed { RefTabAction::StartRename } else { RefTabAction::Nothing },
            KeyCode::Char('d') => if parsed { RefTabAction::ConfirmDelete } else { RefTabAction::Nothing },
            KeyCode::Char('f') => if parsed { RefTabAction::ConfirmForget } else { RefTabAction::Nothing },
            KeyCode::Char('t') => if remote_present { RefTabAction::Track } else { RefTabAction::Nothing },
            KeyCode::Char('T') => if remote_present { RefTabAction::Untrack } else { RefTabAction::Nothing },
            KeyCode::Char('n') => if present { RefTabAction::ConfirmNew { describe: false } } else { RefTabAction::Nothing },
            KeyCode::Char('N') => if present { RefTabAction::ConfirmNew { describe: true } } else { RefTabAction::Nothing },
            KeyCode::Char('e') => if present { RefTabAction::Edit } else { RefTabAction::Nothing },
            KeyCode::Enter => if present { RefTabAction::ViewLog } else { RefTabAction::Nothing },
            KeyCode::Char('h') | KeyCode::Char('?') => RefTabAction::ShowHelp,
            _ => RefTabAction::NotHandled,
        }
    }
}

/// The keys of the bookmarks tab on a bookmark that could be read, with no
/// popup open: pressed alone, `d` asks to delete it and `f` to forget it,
/// `r` renames it and `c` creates a bookmark; asking to delete comes only
/// from `d` and asking to forget only from `f`, so the two never mix.
pub proof fn lemma_ref_tab_keys(key: KeyEvent, has_remote: bool, present: bool, list_height: u16)
    requires
        key.kind == KeyEventKind::Press,
        key.modifiers.bits == 0,
    ensures
        key.code == KeyCode::Char('d') ==> ref_tab_key(key, (RefSel::Parsed { has_remote, present }), list_height, false)
            == RefTabAction::ConfirmDelete,
        key.code == KeyCode::Char('f') ==> ref_tab_key(key, (RefSel::Parsed { has_remote, present }), list_height, false)
            == RefTabAction::ConfirmForget,
        key.code == KeyCode::Char('r') ==> ref_tab_key(key, (RefSel::Parsed { has_remote, present }), list_height, false)
            == RefTabAction::StartRename,
        key.code == KeyCode::Char('c') ==> ref_tab_key(key, (RefSel::Parsed { has_remote, present }), list_height, false)
            == RefTabAction::StartCreate,
{
    assert(0u8 & 2u8 != 2u8) by (bit_vector);
}

/// Whatever the key, the selection or the popup: a delete is only ever
/// asked for by `d`, a forget by `f`, tracking by `t` and untracking by `T`,
/// each on a bookmark that could be read (tracking only on one with a
/// remote that is present).
pub proof fn lemma_ref_tab_actions_keys(key: KeyEvent, sel: RefSel, list_height: u16, popup_open: bool)
    ensures
        ref_tab_key(key, sel, list_height, popup_open) == RefTabAction::ConfirmDelete ==> key.code
            == KeyCode::Char('d') && (sel is Parsed),
        ref_tab_key(key, sel, list_height, popup_open) == RefTabAction::ConfirmForget ==> key.code
            == KeyCode::Char('f') && (sel is Parsed),
        ref_tab_key(key, sel, list_height, popup_open) == RefTabAction::Track ==> key.code == KeyCode::Char('t')
            && (sel matches RefSel::Parsed { has_remote, present } && has_remote && present),
        ref_tab_key(key, sel, list_height, popup_open) == RefTabAction::Untrack ==> key.code == KeyCode::Char('T')
            && (sel matches RefSel::Parsed { has_remote, present } && has_remote && present),
{
}

/// The list keys of the bookmarks tab, with no popup open: `j` or Down
/// moves the selection down one item, `k` or Up moves it up one, `J` moves it
/// down half the list's height and `K` up as much.
pub proof fn lemma_ref_tab_scroll_keys(key: KeyEvent, sel: RefSel, list_height: u16)
    requires
        key.kind == KeyEventKind::Press,
    ensures
        key.code == KeyCode::Char('j') || key.code == KeyCode::Down ==> ref_tab_key(key, sel, list_height, false) == RefTabAction::Scroll(1isize),
        key.code == KeyCode::Char('k') || key.code == KeyCode::Up ==> ref_tab_key(key, sel, list_height, false) == RefTabAction::Scroll(-1isize),
        key.code == KeyCode::Char('J') ==> (ref_tab_key(key, sel, list_height, false) matches RefTabAction::Scroll(d) && d == list_height / 2),
        key.code == KeyCode::Char('K') ==> (ref_tab_key(key, sel, list_height, false) matches RefTabAction::Scroll(d) && d == -((list_height / 2) as int)),
{
}

/// What a key does in the bookmarks tab when no name or description is
/// being typed.
pub fn ref_tab_key_action(key: KeyEvent, sel: RefSel, list_height: u16, popup_open: bool) -> (r: RefTabAction)
    ensures
        r == ref_tab_key(key, sel, list_height, popup_open),
{
    let parsed = match sel {
        RefSel::Parsed { .. } => true,
        _ => false,
    };
    let present = match sel {
        RefSel::Parsed { present, .. } => present,
        _ => false,
    };
    let remote_present = match sel {
        RefSel::Parsed { has_remote, present } => has_remote && present,
        _ => false,
    };
    if key.kind != KeyEventKind::Press {
        return RefTabAction::Nothing;
    }
    if popup_open {
        return if key.code == KeyCode::Char('q') || key.code == KeyCode::Esc {
            RefTabAction::ClosePopup
        } else {
            RefTabAction::PopupKey
        };
    }
    if command_of_key(key).is_some() {
        return RefTabAction::Panel;
    }
    let half: isize = (list_height / 2) as isize;
    match key.code {
        KeyCode::Char('j') | KeyCode::Down => RefTabAction::Scroll(1),
        KeyCode::Char('k') | KeyCode::Up => RefTabAction::Scroll(-1),
        KeyCode::Char('J') => RefTabAction::Scroll(half),
        KeyCode::Char('K') => RefTabAction::Scroll(-half),
        KeyCode::Char('w') => RefTabAction::ToggleDiffFormat,
        KeyCode::Char('R') => RefTabAction::Refresh,
        KeyCode::F(5) => RefTabAction::Refresh,
        KeyCode::Char('a') => RefTabAction::ToggleShowAll,
        KeyCode::Char('c') => RefTabAction::StartCreate,
        KeyCode::Char('r') => if parsed { RefTabAction::StartRename } else { RefTabAction::Nothing },
        KeyCode::Char('d') => if parsed { RefTabAction::ConfirmDelete } else { RefTabAction::Nothing },
        KeyCode::Char('f') => if parsed { RefTabAction::ConfirmForget } else { RefTabAction::Nothing },
        KeyCode::Char('t') => if remote_present { RefTabAction::Track } else { RefTabAction::Nothing },
        KeyCode::Char('T') => if remote_present { RefTabAction::Untrack } else { RefTabAction::Nothing },
        KeyCode::Char('n') => if present { RefTabAction::ConfirmNew { describe: false } } else { RefTabAction::Nothing },
        KeyCode::Char('N') => if present { RefTabAction::ConfirmNew { describe: true } } else { RefTabAction::Nothing },
        KeyCode::Char('e') => if present { RefTabAction::Edit } else { RefTabAction::Nothing },
        KeyCode::Enter => if present { RefTabAction::ViewLog } else { RefTabAction::Nothing },
        KeyCode::Char('h') | KeyCode::Char('?') => RefTabAction::ShowHelp,
        _ => RefTabAction::NotHandled,
    }
}

/// What a key does while a name or a description is typed.
#[derive(Clone, Copy, Debug, PartialEq, Eq, Structural)]
pub enum TextEntryKey {
    Submit,
    Cancel,
    Type,
}

/// While a name is typed, Ctrl+S or Enter submit it and Esc cancels;
/// other keys go to the text.
pub open spec fn name_entry_key(key: KeyEvent) -> TextEntryKey {
    if (key.code == KeyCode::Char('s') && ctrl(key)) || key.code == KeyCode::Enter {
        TextEntryKey::Submit
    } else if key.code == KeyCode::Esc {
        TextEntryKey::Cancel
    } else {
        TextEntryKey::Type
    }
}

/// While a name or a description is typed, Ctrl+s submits it and Esc
/// drops it; a character typed without Ctrl is only typed, never taken as
/// submitting or dropping (Enter also submits a name).
pub proof fn lemma_text_entry_keys(key: KeyEvent, c: char)
    ensures
        key.code == KeyCode::Char('s') && ctrl(key) ==> name_entry_key(key) == TextEntryKey::Submit
            && description_key(key) == TextEntryKey::Submit,
        key.code == KeyCode::Esc ==> name_entry_key(key) == TextEntryKey::Cancel && description_key(key)
            == TextEntryKey::Cancel,
        key.code == KeyCode::Enter ==> name_entry_key(key) == TextEntryKey::Submit,
        key.code == KeyCode::Char(c) && !ctrl(key) ==> name_entry_key(key) == TextEntryKey::Type
            && description_key(key) == TextEntryKey::Type,
{
}

/// What a key does while a name is typed.
pub fn name_entry_action(key: KeyEvent) -> (r: TextEntryKey)
    ensures
        r == name_entry_key(key),
{
    if (key.code == KeyCode::Char('s') && key.modifiers.contains(KeyModifiers::control()))
        || key.code == KeyCode::Enter {
        TextEntryKey::Submit
    } else if key.code == KeyCode::Esc {
        TextEntryKey::Cancel
    } else {
        TextEntryKey::Type
    }
}

/// While a description is typed, Ctrl+S submits it and Esc cancels; other
/// keys, Enter among them, go to the text.
pub open spec fn description_key(key: KeyEvent) -> TextEntryKey {
    if key.code == KeyCode::Char('s') && ctrl(key) {
        TextEntryKey::Submit
    } else if key.code == KeyCode::Esc {
        TextEntryKey::Cancel
    } else {
        TextEntryKey::Type
    }
}

/// What a key does while a description is typed.
pub fn description_action(key: KeyEvent) -> (r: TextEntryKey)
    ensures
        r == description_key(key),
{
    if key.code == KeyCode::Char('s') && key.modifiers.contains(KeyModifiers::control()) {
        TextEntryKey::Submit
    } else if key.code == KeyCode::Esc {
        TextEntryKey::Cancel
    } else {
        TextEntryKey::Type
    }
}

/// Whether a text is blank: white space only.
pub open spec fn is_blank(s: Seq<char>) -> bool {
    forall|i: int| 0 <= i < s.len() ==> is_white_space(s[i])
}

/// The text typed in a text area: its lines joined with `sep`, or None
/// when that is blank.
pub fn entered_text(lines: &Vec<String>, sep: &str) -> (r: Option<String>)
    ensures
        match r {
            Some(name) => name@ == join_with(views(lines@), sep@) && !is_blank(name@),
            None => is_blank(join_with(views(lines@), sep@)),
        },
{
    let name = join_strings(lines, sep);
    let cs = crate::strings::chars_of(name.as_str());
    let mut i: usize = 0;
    while i < cs.len()
        invariant
            i <= cs@.len(),
            cs@ == name@,
            name@ == join_with(views(lines@), sep@),
            forall|j: int| 0 <= j < i ==> is_white_space(cs@[j]),
        decreases cs@.len() - i,
    {
        if !white_space(cs[i]) {
            assert(!is_white_space(name@[i as int]));
            return Some(name);
        }
        i = i + 1;
    }
    None
}

/// What the confirmation popup asked for, once answered yes.
#[derive(Clone, Copy, Debug, PartialEq, Eq, Structural)]
pub enum Confirmed {
    Delete,
    Forget,
    New,
    Edit,
    Nothing,
}

/// The request that an answer from the popup with `popup_id` confirms: none
/// unless the answer is yes.
pub open spec fn confirmed_request(popup_id: u16, answer: Option<bool>) -> Confirmed {
    if answer != Some(true) {
        Confirmed::Nothing
    } else if popup_id == DELETE_BRANCH_POPUP_ID {
        Confirmed::Delete
    } else if popup_id == FORGET_BRANCH_POPUP_ID {
        Confirmed::Forget
    } else if popup_id == NEW_POPUP_ID {
        Confirmed::New
    } else if popup_id == EDIT_POPUP_ID {
        Confirmed::Edit
    } else {
        Confirmed::Nothing
    }
}

/// Nothing is done without a yes, and a yes does what its popup asked:
/// the delete popup deletes, the forget popup forgets, the new popup creates
/// a change and the edit popup edits; the four popups are told apart.
pub proof fn lemma_confirmed_only_on_yes(popup_id: u16, answer: Option<bool>)
    ensures
        answer != Some(true) ==> confirmed_request(popup_id, answer) == Confirmed::Nothing,
        confirmed_request(DELETE_BRANCH_POPUP_ID, Some(true)) == Confirmed::Delete,
        confirmed_request(FORGET_BRANCH_POPUP_ID, Some(true)) == Confirmed::Forget,
        confirmed_request(NEW_POPUP_ID, Some(true)) == Confirmed::New,
        confirmed_request(EDIT_POPUP_ID, Some(true)) == Confirmed::Edit,
        confirmed_request(popup_id, answer) == Confirmed::Delete ==> popup_id == DELETE_BRANCH_POPUP_ID,
        confirmed_request(popup_id, answer) == Confirmed::Forget ==> popup_id == FORGET_BRANCH_POPUP_ID,
{
}

/// The request that an answer from a confirmation popup confirms.
pub fn confirmed_by(popup_id: u16, answer: Option<bool>) -> (r: Confirmed)
    ensures
        r == confirmed_request(popup_id, answer),
{
    let yes = match answer {
        Some(b) => b,
        None => false,
    };
    if !yes {
        Confirmed::Nothing
    } else if popup_id == DELETE_BRANCH_POPUP_ID {
        Confirmed::Delete
    } else if popup_id == FORGET_BRANCH_POPUP_ID {
        Confirmed::Forget
    } else if popup_id == NEW_POPUP_ID {
        Confirmed::New
    } else if popup_id == EDIT_POPUP_ID {
        Confirmed::Edit
    } else {
        Confirmed::Nothing
    }
}

} // verus!
