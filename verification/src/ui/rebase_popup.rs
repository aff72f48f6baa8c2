//! The rebase popup: the user picks which changes move and where they go,
//! then starts the rebase or cancels it.
use vstd::prelude::*;

use crate::commander::ids::CommitId;
use crate::keybinds::rebase_popup::{rebase_popup_bindings, CutOption, Keybinds, PasteOption, PopupAction};
use crate::keybinds::{KeyEvent, Shortcut};
use crate::strings::{owned, views};
use crate::ui::utils::Rect;

verus! {

/// The flag of `jj rebase` that picks the changes to move.
pub open spec fn cut_flag(mode: CutOption) -> Seq<char> {
    match mode {
        CutOption::IncludeDescendants => "-s"@,
        CutOption::IncludeBranch => "-b"@,
        CutOption::SingleRevision => "-r"@,
    }
}

/// The flag of `jj rebase` that picks where the changes go.
pub open spec fn paste_flag(mode: PasteOption) -> Seq<char> {
    match mode {
        PasteOption::NewBranch => "-d"@,
        PasteOption::InsertAfter => "-A"@,
        PasteOption::InsertBefore => "-B"@,
    }
}

/// The place of a cut option among the radio buttons, from the top.
pub open spec fn cut_row(mode: CutOption) -> usize {
    match mode {
        CutOption::IncludeDescendants => 0,
        CutOption::IncludeBranch => 1,
        CutOption::SingleRevision => 2,
    }
}

/// The place of a paste option among the radio buttons, from the top.
pub open spec fn paste_row(mode: PasteOption) -> usize {
    match mode {
        PasteOption::NewBranch => 0,
        PasteOption::InsertAfter => 1,
        PasteOption::InsertBefore => 2,
    }
}

/// A transient popup that configures a rebase.
pub struct RebasePopup {
    pub keybinds: Keybinds,
    pub source_change: CommitId,
    pub target_change: CommitId,
    pub source_mode: CutOption,
    pub target_mode: PasteOption,
}

/// What the popup asks for after a key.
#[derive(Clone, Copy, Debug, PartialEq, Eq, Structural)]
pub enum RebaseInput {
    /// Run the rebase as configured, then close.
    Run,
    /// Close without rebasing.
    Close,
    /// Stay open.
    Stay,
}

impl RebasePopup {
    /// A popup that moves just `source_change` onto `target_change` as a
    /// new branch, with the default keys.
    pub fn new(source_change: CommitId, target_change: CommitId) -> (r: Self)
        ensures
            r.keybinds@ == rebase_popup_bindings(),
            r.source_change@ == source_change@,
            r.target_change@ == target_change@,
            r.source_mode == CutOption::SingleRevision,
            r.target_mode == PasteOption::NewBranch,
    {
        RebasePopup {
            keybinds: Keybinds::default(),
            source_change,
            target_change,
            source_mode: CutOption::SingleRevision,
            target_mode: PasteOption::NewBranch,
        }
    }

    /// The arguments of the `jj rebase` that the popup is set to run.
    pub fn rebase_args(&self) -> (r: Vec<String>)
        ensures
            views(r@) == seq![
                "rebase"@,
                cut_flag(self.source_mode),
                self.source_change@,
                paste_flag(self.target_mode),
                self.target_change@,
            ],
    {
        let src_mode: &str = match self.source_mode {
            CutOption::IncludeDescendants => "-s",
            CutOption::IncludeBranch => "-b",
            CutOption::SingleRevision => "-r",
        };
        let tgt_mode: &str = match self.target_mode {
            PasteOption::NewBranch => "-d",
            PasteOption::InsertAfter => "-A",
            PasteOption::InsertBefore => "-B",
        };
        let r = vec![
            owned("rebase"),
            owned(src_mode),
            owned(self.source_change.as_str()),
            owned(tgt_mode),
            owned(self.target_change.as_str()),
        ];
        assert(views(r@) =~= seq![
            "rebase"@,
            cut_flag(self.source_mode),
            self.source_change@,
            paste_flag(self.target_mode),
            self.target_change@,
        ]);
        r
    }

    /// The selected radio button of the source options and of the target
    /// options.
    pub fn selected_rows(&self) -> (r: (usize, usize))
        ensures
            r == (cut_row(self.source_mode), paste_row(self.target_mode)),
    {
        let s: usize = match self.source_mode {
            CutOption::IncludeDescendants => 0,
            CutOption::IncludeBranch => 1,
            CutOption::SingleRevision => 2,
        };
        let t: usize = match self.target_mode {
            PasteOption::NewBranch => 0,
            PasteOption::InsertAfter => 1,
            PasteOption::InsertBefore => 2,
        };
        (s, t)
    }

    /// Handles a key: accepting asks to run the rebase, cancelling to close,
    /// and the option keys pick an option and keep the popup open.
    pub fn handle_input(&mut self, key: KeyEvent) -> (r: RebaseInput)
        ensures
            ({
                let s = Shortcut::from_event_spec(key);
                let a = if old(self).keybinds@.contains_key(s) {
                    old(self).keybinds@[s]
                } else {
                    PopupAction::NoAction
                };
                &&& r == match a {
                    PopupAction::Accept => RebaseInput::Run,
                    PopupAction::Cancel => RebaseInput::Close,
                    _ => RebaseInput::Stay,
                }
                &&& final(self).source_mode == match a {
                    PopupAction::SetSourceMode(m) => m,
                    _ => old(self).source_mode,
                }
                &&& final(self).target_mode == match a {
                    PopupAction::SetTargetMode(m) => m,
                    _ => old(self).target_mode,
                }
            }),
            final(self).keybinds@ == old(self).keybinds@,
            final(self).source_change@ == old(self).source_change@,
            final(self).target_change@ == old(self).target_change@,
    {
        match self.keybinds.match_event(key) {
            PopupAction::Accept => RebaseInput::Run,
            PopupAction::Cancel => RebaseInput::Close,
            PopupAction::SetSourceMode(m) => {
                self.source_mode = m;
                RebaseInput::Stay
            },
            PopupAction::SetTargetMode(m) => {
                self.target_mode = m;
                RebaseInput::Stay
            },
            PopupAction::NoAction => RebaseInput::Stay,
        }
    }
}

/// The width of the rebase popup.
pub const POPUP_WIDTH: u16 = 32;

/// The height of the rebase popup.
pub const POPUP_HEIGHT: u16 = 12;

/// A rectangle of `width` by `height` cells centered in `outside`, which
/// must be at least that large.
pub fn center_rect(outside: Rect, width: u16, height: u16) -> (r: Rect)
    requires
        width <= outside.width,
        height <= outside.height,
        outside.x + (outside.width - width) / 2 <= u16::MAX,
        outside.y + (outside.height - height) / 2 <= u16::MAX,
    ensures
        r == (Rect {
            x: (outside.x + (outside.width - width) / 2) as u16,
            y: (outside.y + (outside.height - height) / 2) as u16,
            width,
            height,
        }),
{
    Rect {
        x: outside.x + (outside.width - width) / 2,
        y: outside.y + (outside.height - height) / 2,
        width,
        height,
    }
}

} // verus!
