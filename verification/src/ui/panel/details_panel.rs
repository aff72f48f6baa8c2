//! The scrolling, wrapping text panel drawn inside a frame.
use vstd::prelude::*;

use crate::keybinds::{KeyCode, KeyEvent, KeyModifiers};
use crate::ui::details_panel::{ctrl_held, moved_by, saturating_add_signed};

verus! {

/// Details panel used for the right side of each tab: it keeps the scroll
/// position, the height of the area last drawn, how many lines the text
/// had there, and whether long lines wrap.
pub struct DetailsPanel {
    scroll: u16,
    height: u16,
    lines: u16,
    wrap: bool,
}

/// Commands that the details panel handles.
pub enum DetailsPanelEvent {
    ScrollDown,
    ScrollUp,
    ScrollDownHalfPage,
    ScrollUpHalfPage,
    ScrollDownPage,
    ScrollUpPage,
    ToggleWrap,
}

/// The rows by which `event` scrolls a panel `height` rows high, or `None`
/// for an event that does not scroll.
pub open spec fn event_rows(event: DetailsPanelEvent, height: u16) -> Option<int> {
    match event {
        DetailsPanelEvent::ScrollDown => Some(1),
        DetailsPanelEvent::ScrollUp => Some(-1),
        DetailsPanelEvent::ScrollDownHalfPage => Some((height / 2) as int),
        DetailsPanelEvent::ScrollUpHalfPage => Some(-(height / 2)),
        DetailsPanelEvent::ScrollDownPage => Some(height as int),
        DetailsPanelEvent::ScrollUpPage => Some(-height),
        DetailsPanelEvent::ToggleWrap => None,
    }
}

/// `line_no`, but no further than the last of `lines` lines (the first line
/// when there are none).
pub open spec fn clamped_line(line_no: u16, lines: u16) -> u16 {
    if line_no <= lines.saturating_sub(1) {
        line_no
    } else {
        lines.saturating_sub(1)
    }
}

/// The panel command that `key` stands for, if any: Ctrl with e/y scrolls a
/// row, with d/u half a page, with f/b a page; `W` toggles wrapping.
pub open spec fn key_command(key: KeyEvent) -> Option<DetailsPanelEvent> {
    match key.code {
        KeyCode::Char('e') if ctrl_held(key) => Some(DetailsPanelEvent::ScrollDown),
        KeyCode::Char('y') if ctrl_held(key) => Some(DetailsPanelEvent::ScrollUp),
        KeyCode::Char('d') if ctrl_held(key) => Some(DetailsPanelEvent::ScrollDownHalfPage),
        KeyCode::Char('u') if ctrl_held(key) => Some(DetailsPanelEvent::ScrollUpHalfPage),
        KeyCode::Char('f') if ctrl_held(key) => Some(DetailsPanelEvent::ScrollDownPage),
        KeyCode::Char('b') if ctrl_held(key) => Some(DetailsPanelEvent::ScrollUpPage),
        KeyCode::Char('W') => Some(DetailsPanelEvent::ToggleWrap),
        _ => None,
    }
}

/// The panel command that `key` stands for, if any.
pub fn command_of_key(key: KeyEvent) -> (r: Option<DetailsPanelEvent>)
    ensures
        r == key_command(key),
{
    let ctrl = key.modifiers.contains(KeyModifiers::control());
    match key.code {
        KeyCode::Char('e') if ctrl => Some(DetailsPanelEvent::ScrollDown),
        KeyCode::Char('y') if ctrl => Some(DetailsPanelEvent::ScrollUp),
        KeyCode::Char('d') if ctrl => Some(DetailsPanelEvent::ScrollDownHalfPage),
        KeyCode::Char('u') if ctrl => Some(DetailsPanelEvent::ScrollUpHalfPage),
        KeyCode::Char('f') if ctrl => Some(DetailsPanelEvent::ScrollDownPage),
        KeyCode::Char('b') if ctrl => Some(DetailsPanelEvent::ScrollUpPage),
        KeyCode::Char('W') => Some(DetailsPanelEvent::ToggleWrap),
        _ => None,
    }
}

impl DetailsPanel {
    /// The row that the text is shown from.
    pub closed spec fn position(&self) -> u16 {
        self.scroll
    }

    /// The height of the area that the panel was last drawn in.
    pub closed spec fn view_height(&self) -> u16 {
        self.height
    }

    /// The number of lines that the text had when last drawn.
    pub closed spec fn line_count(&self) -> u16 {
        self.lines
    }

    /// Whether long lines wrap.
    pub closed spec fn wraps(&self) -> bool {
        self.wrap
    }

    /// A panel at the top, not drawn yet, that wraps.
    pub fn new() -> (r: Self)
        ensures
            r.position() == 0,
            r.view_height() == 0,
            r.line_count() == 0,
            r.wraps(),
    {
        DetailsPanel { scroll: 0, height: 0, lines: 0, wrap: true }
    }

    /// Records the size of the area and the number of lines of the text
    /// being drawn, and gives the row that the text is shown from.
    pub fn fit(&mut self, height: u16, lines: u16) -> (shown: u16)
        ensures
            final(self).view_height() == height,
            final(self).line_count() == lines,
            final(self).position() == old(self).position(),
            final(self).wraps() == old(self).wraps(),
            shown == clamped_line(old(self).position(), lines),
    {
        self.height = height;
        self.lines = lines;
        let last = lines.saturating_sub(1);
        if self.scroll <= last {
            self.scroll
        } else {
            last
        }
    }

    /// The row that the text is shown from.
    pub fn scroll_position(&self) -> (r: u16)
        ensures
            r == self.position(),
    {
        self.scroll
    }

    /// The number of lines that the text had when last drawn.
    pub fn lines(&self) -> (r: u16)
        ensures
            r == self.line_count(),
    {
        self.lines
    }

    /// Whether long lines wrap.
    pub fn is_wrapping(&self) -> (r: bool)
        ensures
            r == self.wraps(),
    {
        self.wrap
    }

    /// Shows the text from line `line_no`, or from the last line if the text
    /// is shorter.
    pub fn scroll_to(&mut self, line_no: u16)
        ensures
            final(self).position() == clamped_line(line_no, old(self).line_count()),
            final(self).view_height() == old(self).view_height(),
            final(self).line_count() == old(self).line_count(),
            final(self).wraps() == old(self).wraps(),
    {
        let last = self.lines.saturating_sub(1);
        self.scroll = if line_no <= last { line_no } else { last };
    }

    /// Moves the scroll position by `scroll` rows (cut to an `i16`), no
    /// further than the last line.
    pub fn scroll(&mut self, scroll: isize)
        ensures
            final(self).position() == clamped_line(
                moved_by(old(self).position(), scroll as i16),
                old(self).line_count(),
            ),
            final(self).view_height() == old(self).view_height(),
            final(self).line_count() == old(self).line_count(),
            final(self).wraps() == old(self).wraps(),
    {
        let moved = saturating_add_signed(self.scroll, scroll as i16);
        self.scroll_to(moved)
    }

    /// Carries out `details_panel_event`: scrolls by the rows it names, or
    /// toggles wrapping.
    pub fn handle_event(&mut self, details_panel_event: DetailsPanelEvent)
        ensures
            final(self).view_height() == old(self).view_height(),
            final(self).line_count() == old(self).line_count(),
            match event_rows(details_panel_event, old(self).view_height()) {
                Some(d) => final(self).position() == clamped_line(
                    moved_by(old(self).position(), d as i16),
                    old(self).line_count(),
                ) && final(self).wraps() == old(self).wraps(),
                None => final(self).position() == old(self).position()
                    && final(self).wraps() == !old(self).wraps(),
            },
    {
        match details_panel_event {
            DetailsPanelEvent::ScrollDown => self.scroll(1),
            DetailsPanelEvent::ScrollUp => self.scroll(-1),
            DetailsPanelEvent::ScrollDownHalfPage => self.scroll(self.height as isize / 2),
            DetailsPanelEvent::ScrollUpHalfPage => self.scroll(-(self.height as isize / 2)),
            DetailsPanelEvent::ScrollDownPage => self.scroll(self.height as isize),
            DetailsPanelEvent::ScrollUpPage => self.scroll(-(self.height as isize)),
            DetailsPanelEvent::ToggleWrap => self.wrap = !self.wrap,
        }
    }

    /// Handles `key` if it stands for a panel command, and says whether it did.
    pub fn input(&mut self, key: KeyEvent) -> (handled: bool)
        ensures
            handled == key_command(key).is_some(),
            final(self).view_height() == old(self).view_height(),
            final(self).line_count() == old(self).line_count(),
            match key_command(key) {
                Some(e) => match event_rows(e, old(self).view_height()) {
                    Some(d) => final(self).position() == clamped_line(
                        moved_by(old(self).position(), d as i16),
                        old(self).line_count(),
                    ) && final(self).wraps() == old(self).wraps(),
                    None => final(self).position() == old(self).position()
                        && final(self).wraps() == !old(self).wraps(),
                },
                None => final(self).position() == old(self).position()
                    && final(self).wraps() == old(self).wraps(),
            },
    {
        match command_of_key(key) {
            Some(e) => {
                self.handle_event(e);
                true
            },
            None => false,
        }
    }
}


/// The scroll keys move the text the way they say: with Ctrl held, `e`, `d`
/// and `f` scroll down by a row, half a page and a page, and `y`, `u` and `b`
/// scroll up by as much. So a down key never moves a panel that shows its
/// text up, and an up key never moves it down.
pub proof fn lemma_scroll_keys(key: KeyEvent, pos: u16, height: u16, lines: u16)
    requires
        ctrl_held(key),
        height <= 0x7fff,
    ensures
        key.code == KeyCode::Char('e') ==> (key_command(key) matches Some(e) && event_rows(e, height) == Some(1int)),
        key.code == KeyCode::Char('y') ==> (key_command(key) matches Some(e) && event_rows(e, height) == Some(-1int)),
        key.code == KeyCode::Char('d') ==> (key_command(key) matches Some(e) && event_rows(e, height) == Some(
            (height / 2) as int,
        )),
        key.code == KeyCode::Char('u') ==> (key_command(key) matches Some(e) && event_rows(e, height) == Some(
            -((height / 2) as int),
        )),
        key.code == KeyCode::Char('f') ==> (key_command(key) matches Some(e) && event_rows(e, height) == Some(
            height as int,
        )),
        key.code == KeyCode::Char('b') ==> (key_command(key) matches Some(e) && event_rows(e, height) == Some(
            -(height as int),
        )),
        (key.code == KeyCode::Char('e') || key.code == KeyCode::Char('d') || key.code == KeyCode::Char('f'))
            && pos <= lines.saturating_sub(1) ==> (key_command(key) matches Some(e) && event_rows(e, height)
            matches Some(d) && clamped_line(moved_by(pos, d as i16), lines) >= pos),
        (key.code == KeyCode::Char('y') || key.code == KeyCode::Char('u') || key.code == KeyCode::Char('b'))
            ==> (key_command(key) matches Some(e) && event_rows(e, height) matches Some(d) && clamped_line(
            moved_by(pos, d as i16),
            lines,
        ) <= pos),
{
}

/// The panel never shows the text from past its last line, and moving by
/// no row keeps a position that is within the text.
pub proof fn lemma_scroll_within_text(line_no: u16, scroll: u16, lines: u16)
    ensures
        clamped_line(line_no, lines) <= lines.saturating_sub(1),
        scroll <= lines.saturating_sub(1) ==> clamped_line(moved_by(scroll, 0), lines) == scroll,
{
}

} // verus!
