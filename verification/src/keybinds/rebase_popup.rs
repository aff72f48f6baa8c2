//! Key bindings specific for rebase popup
use vstd::prelude::*;

use super::keybinds_store::{Action, KeybindsStore};
use super::log_tab::key_with;
use super::{KeyCode, KeyEvent, KeyModifiers, Shortcut, SHIFT_BIT};

verus! {

/// How should rebase cut revisions from source
#[derive(Debug, PartialEq, Eq, Clone, Copy, Structural)]
pub enum CutOption {
    /// `-s`
    IncludeDescendants,
    /// `-b`
    IncludeBranch,
    /// `-r`
    SingleRevision,
}

/// How should rebase paste revisions at target
#[derive(Debug, PartialEq, Eq, Clone, Copy, Structural)]
pub enum PasteOption {
    /// `-d`
    NewBranch,
    /// `-A`
    InsertAfter,
    /// `-B`
    InsertBefore,
}

/// Actions available inside a RebasePopup
#[derive(Debug, PartialEq, Eq, Clone, Copy, Structural)]
pub enum PopupAction {
    NoAction,
    Accept,
    Cancel,
    SetSourceMode(CutOption),
    SetTargetMode(PasteOption),
}

impl Action for PopupAction {
    fn same_action(&self, other: &Self) -> (r: bool) {
        *self == *other
    }
}

/// The bindings of the rebase popup.
pub open spec fn rebase_popup_bindings() -> Map<Shortcut, PopupAction> {
    Map::empty()
        .insert(key_with(KeyCode::Enter, 0), PopupAction::Accept)
        .insert(key_with(KeyCode::Esc, 0), PopupAction::Cancel)
        .insert(key_with(KeyCode::Char('q'), 0), PopupAction::Cancel)
        .insert(key_with(KeyCode::Char('s'), 0), PopupAction::SetSourceMode(CutOption::IncludeDescendants))
        .insert(key_with(KeyCode::Char('b'), 0), PopupAction::SetSourceMode(CutOption::IncludeBranch))
        .insert(key_with(KeyCode::Char('r'), 0), PopupAction::SetSourceMode(CutOption::SingleRevision))
        .insert(key_with(KeyCode::Char('d'), 0), PopupAction::SetTargetMode(PasteOption::NewBranch))
        .insert(key_with(KeyCode::Char('a'), SHIFT_BIT), PopupAction::SetTargetMode(PasteOption::InsertAfter))
        .insert(key_with(KeyCode::Char('b'), SHIFT_BIT), PopupAction::SetTargetMode(PasteOption::InsertBefore))
}

fn sc(key: KeyCode, bits: u8) -> (r: Shortcut)
    ensures
        r == key_with(key, bits),
{
    Shortcut::new_mod_key(KeyModifiers { bits }, key)
}

fn default_keybinds() -> (r: KeybindsStore<PopupAction>)
    ensures
        r@ == rebase_popup_bindings(),
{
    let mut keys = KeybindsStore::<PopupAction>::new();
    keys.add_action(sc(KeyCode::Enter, 0), PopupAction::Accept);
    keys.add_action(sc(KeyCode::Esc, 0), PopupAction::Cancel);
    keys.add_action(sc(KeyCode::Char('q'), 0), PopupAction::Cancel);
    keys.add_action(sc(KeyCode::Char('s'), 0), PopupAction::SetSourceMode(CutOption::IncludeDescendants));
    keys.add_action(sc(KeyCode::Char('b'), 0), PopupAction::SetSourceMode(CutOption::IncludeBranch));
    keys.add_action(sc(KeyCode::Char('r'), 0), PopupAction::SetSourceMode(CutOption::SingleRevision));
    keys.add_action(sc(KeyCode::Char('d'), 0), PopupAction::SetTargetMode(PasteOption::NewBranch));
    keys.add_action(sc(KeyCode::Char('a'), SHIFT_BIT), PopupAction::SetTargetMode(PasteOption::InsertAfter));
    keys.add_action(sc(KeyCode::Char('b'), SHIFT_BIT), PopupAction::SetTargetMode(PasteOption::InsertBefore));
    keys
}

/// The key bindings of the rebase popup.
#[derive(Debug)]
pub struct Keybinds {
    keys: KeybindsStore<PopupAction>,
}

impl View for Keybinds {
    type V = Map<Shortcut, PopupAction>;

    closed spec fn view(&self) -> Map<Shortcut, PopupAction> {
        self.keys@
    }
}

impl Default for Keybinds {
    fn default() -> (r: Self)
        ensures
            r@ == rebase_popup_bindings(),
    {
        Self { keys: default_keybinds() }
    }
}

impl Keybinds {
    /// The action a key press stands for; `NoAction` if none.
    pub fn match_event(&self, event: KeyEvent) -> (r: PopupAction)
        ensures
            ({
                let s = Shortcut::from_event_spec(event);
                r == if self@.contains_key(s) { self@[s] } else { PopupAction::NoAction }
            }),
    {
        if let Some(action) = self.keys.match_event(event) {
            action
        } else {
            PopupAction::NoAction
        }
    }
}

} // verus!
