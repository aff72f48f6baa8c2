//! The help popup: two tables of keys and what they do, scrolled together.
use vstd::prelude::*;

use crate::keybinds::{KeyCode, KeyEvent, KeyEventKind};

verus! {

/// A popup listing key bindings for the left and the right panel.
pub struct HelpPopup {
    pub left_items: Vec<(String, String)>,
    pub right_items: Vec<(String, String)>,
    height: u16,
    scroll: usize,
}

/// The furthest row that the tables can be scrolled to: the longer list
/// less the rows that fit.
pub open spec fn last_scroll(left: nat, right: nat, height: u16) -> int {
    let longest = if left >= right { left } else { right };
    if longest >= height { longest - height } else { 0 }
}

impl HelpPopup {
    /// The rows of the left table.
    pub closed spec fn left_rows(&self) -> Seq<(String, String)> {
        self.left_items@
    }

    /// The rows of the right table.
    pub closed spec fn right_rows(&self) -> Seq<(String, String)> {
        self.right_items@
    }

    /// The first row shown.
    pub closed spec fn position(&self) -> usize {
        self.scroll
    }

    /// The rows that the popup had room for when last drawn.
    pub closed spec fn room(&self) -> u16 {
        self.height
    }

    /// A popup with these rows, at the top.
    pub fn new(left_items: Vec<(String, String)>, right_items: Vec<(String, String)>) -> (r: Self)
        ensures
            r.left_rows() == left_items@,
            r.right_rows() == right_items@,
            r.position() == 0,
            r.room() == 0,
    {
        HelpPopup { left_items, right_items, height: 0, scroll: 0 }
    }

    /// Records how many rows the popup had room for when drawn.
    pub fn set_height(&mut self, height: u16)
        ensures
            final(self).room() == height,
            final(self).position() == old(self).position(),
            final(self).left_rows() == old(self).left_rows(),
            final(self).right_rows() == old(self).right_rows(),
    {
        self.height = height;
    }

    /// The first row shown.
    pub fn scroll_position(&self) -> (r: usize)
        ensures
            r == self.position(),
    {
        self.scroll
    }

    /// Handles a key: a press of `j` scrolls down a row, as far as the longer
    /// list allows, and a press of `k` scrolls up a row. Says whether the key
    /// was handled.
    pub fn input(&mut self, key: KeyEvent) -> (handled: bool)
        ensures
            handled == (key.kind == KeyEventKind::Press && (key.code == KeyCode::Char('j')
                || key.code == KeyCode::Char('k'))),
            final(self).position() == (if handled && key.code == KeyCode::Char('j') {
                let bound = last_scroll(
                    old(self).left_rows().len(),
                    old(self).right_rows().len(),
                    old(self).room(),
                );
                if old(self).position() + 1 <= bound { old(self).position() + 1 } else { bound }
            } else if handled {
                if old(self).position() >= 1 { old(self).position() - 1 } else { 0 }
            } else {
                old(self).position() as int
            }),
            final(self).room() == old(self).room(),
            final(self).left_rows() == old(self).left_rows(),
            final(self).right_rows() == old(self).right_rows(),
    {
        if key.kind != KeyEventKind::Press {
            return false;
        }
        match key.code {
            KeyCode::Char('j') => {
                let l = self.left_items.len();
                let r = self.right_items.len();
                let longest = if l >= r { l } else { r };
                let bound = longest.saturating_sub(self.height as usize);
                let next = self.scroll.saturating_add(1);
                self.scroll = if next <= bound { next } else { bound };
                true
            },
            KeyCode::Char('k') => {
                self.scroll = self.scroll.saturating_sub(1);
                true
            },
            _ => false,
        }
    }
}

} // verus!
