//! The scrolling, wrapping text panel on the right side of each tab.
use vstd::prelude::*;

use crate::keybinds::{KeyCode, KeyEvent, KeyModifiers, CONTROL_BIT};

verus! {

/// `scroll` moved by `delta` rows, the way `u16::saturating_add_signed`
/// moves it: clamped to the range of a `u16`.
pub open spec fn moved_by(scroll: u16, delta: i16) -> u16 {
    let v = scroll + delta;
    if v < 0 {
        0
    } else if v > u16::MAX {
        u16::MAX
    } else {
        v as u16
    }
}

/// `u16::saturating_add_signed`, in plain integer arithmetic.
pub fn saturating_add_signed(scroll: u16, delta: i16) -> (r: u16)
    ensures
        r == moved_by(scroll, delta),
{
    let v: i32 = scroll as i32 + delta as i32;
    if v < 0 {
        0
    } else if v > 65535 {
        u16::MAX
    } else {
        v as u16
    }
}

/// Details panel used for the right side of each tab: it keeps the scroll
/// position, the height of the area last drawn, how many lines the text
/// had there, and whether long lines wrap.
pub struct DetailsPanel {
    pub scroll: u16,
    height: u16,
    lines: u16,
    wrap: bool,
}

/// Commands that the details panel handles.
pub enum DetailsPanelEvent {
    ScrollDown,
    ScrollUp,
    ScrollDownRows(isize),
    ScrollUpRows(isize),
    ScrollDownHalfPage,
    ScrollUpHalfPage,
    ScrollDownPage,
    ScrollUpPage,
    ToggleWrap,
}

/// The rows by which `event` scrolls a panel `height` rows high, or `None`
/// for an event that does not scroll.
pub open spec fn event_rows(event: DetailsPanelEvent, height: u16) -> Option<int> {
    match event {
        DetailsPanelEvent::ScrollDown => Some(1),
        DetailsPanelEvent::ScrollUp => Some(-1),
        DetailsPanelEvent::ScrollDownRows(i) => Some(i as int),
        DetailsPanelEvent::ScrollUpRows(i) => Some(-i),
        DetailsPanelEvent::ScrollDownHalfPage => Some((height / 2) as int),
        DetailsPanelEvent::ScrollUpHalfPage => Some(-(height / 2)),
        DetailsPanelEvent::ScrollDownPage => Some(height as int),
        DetailsPanelEvent::ScrollUpPage => Some(-height),
        DetailsPanelEvent::ToggleWrap => None,
    }
}

/// The scroll position after moving `scroll` by `delta` (cut to an `i16`,
/// as the panel does) in a text of `lines` lines.
pub open spec fn scrolled(scroll: u16, delta: isize, lines: u16) -> u16 {
    let s = moved_by(scroll, delta as i16);
    if s <= lines - 1 {
        s
    } else {
        (lines - 1) as u16
    }
}

/// Whether the control key is held in `key`.
pub open spec fn ctrl_held(key: KeyEvent) -> bool {
    key.modifiers.bits & CONTROL_BIT == CONTROL_BIT
}

/// The panel command that `key` stands for, if any: Ctrl with e/y scrolls a
/// row, with d/u half a page, with f/b a page; `W` toggles wrapping.
pub open spec fn key_command(key: KeyEvent) -> Option<DetailsPanelEvent> {
    match key.code {
        KeyCode::Char('e') if ctrl_held(key) => Some(DetailsPanelEvent::ScrollDown),
        KeyCode::Char('y') if ctrl_held(key) => Some(DetailsPanelEvent::ScrollUp),
        KeyCode::Char('d') if ctrl_held(key) => Some(DetailsPanelEvent::ScrollDownHalfPage),
        KeyCode::Char('u') if ctrl_held(key) => Some(DetailsPanelEvent::ScrollUpHalfPage),
        KeyCode::Char('f') if ctrl_held(key) => Some(DetailsPanelEvent::ScrollDownPage),
        KeyCode::Char('b') if ctrl_held(key) => Some(DetailsPanelEvent::ScrollUpPage),
        KeyCode::Char('W') => Some(DetailsPanelEvent::ToggleWrap),
        _ => None,
    }
}

/// The panel command that `key` stands for, if any.
pub fn command_of_key(key: KeyEvent) -> (r: Option<DetailsPanelEvent>)
    ensures
        r == key_command(key),
{
    let ctrl = key.modifiers.contains(KeyModifiers::control());
    match key.code {
        KeyCode::Char('e') if ctrl => Some(DetailsPanelEvent::ScrollDown),
        KeyCode::Char('y') if ctrl => Some(DetailsPanelEvent::ScrollUp),
        KeyCode::Char('d') if ctrl => Some(DetailsPanelEvent::ScrollDownHalfPage),
        KeyCode::Char('u') if ctrl => Some(DetailsPanelEvent::ScrollUpHalfPage),
        KeyCode::Char('f') if ctrl => Some(DetailsPanelEvent::ScrollDownPage),
        KeyCode::Char('b') if ctrl => Some(DetailsPanelEvent::ScrollUpPage),
        KeyCode::Char('W') => Some(DetailsPanelEvent::ToggleWrap),
        _ => None,
    }
}

impl DetailsPanel {
    /// The row that the text is shown from.
    pub closed spec fn position(&self) -> u16 {
        self.scroll
    }

    /// The height of the area that the panel was last drawn in.
    pub closed spec fn view_height(&self) -> u16 {
        self.height
    }

    /// The number of lines that the text had when last drawn.
    pub closed spec fn line_count(&self) -> u16 {
        self.lines
    }

    /// Whether long lines wrap.
    pub closed spec fn wraps(&self) -> bool {
        self.wrap
    }

    /// A panel at the top, not drawn yet, that wraps.
    pub fn new() -> (r: Self)
        ensures
            r.position() == 0,
            r.view_height() == 0,
            r.line_count() == 0,
            r.wraps(),
    {
        DetailsPanel { scroll: 0, height: 0, lines: 0, wrap: true }
    }

    /// Records the size of the area and the number of lines of the text
    /// being drawn, and gives the row that the text is shown from.
    pub fn fit(&mut self, height: u16, lines: u16) -> (shown: u16)
        ensures
            final(self).view_height() == height,
            final(self).line_count() == lines,
            final(self).position() == old(self).position(),
            final(self).wraps() == old(self).wraps(),
            shown == (if old(self).position() <= lines.saturating_sub(1) {
                old(self).position()
            } else {
                lines.saturating_sub(1)
            }),
    {
        self.height = height;
        self.lines = lines;
        let last = lines.saturating_sub(1);
        if self.scroll <= last {
            self.scroll
        } else {
            last
        }
    }

    /// The number of lines that the text had when last drawn.
    pub fn lines(&self) -> (r: u16)
        ensures
            r == self.line_count(),
    {
        self.lines
    }

    /// Whether long lines wrap.
    pub fn is_wrapping(&self) -> (r: bool)
        ensures
            r == self.wraps(),
    {
        self.wrap
    }

    /// Moves the scroll position by `scroll` rows (cut to an `i16`), no
    /// further than the last line. The panel must have been drawn with some
    /// text first.
    pub fn scroll(&mut self, scroll: isize)
        requires
            old(self).line_count() >= 1,
        ensures
            final(self).position() == scrolled(old(self).position(), scroll, old(self).line_count()),
            final(self).view_height() == old(self).view_height(),
            final(self).line_count() == old(self).line_count(),
            final(self).wraps() == old(self).wraps(),
    {
        let moved = saturating_add_signed(self.scroll, scroll as i16);
        let last = self.lines - 1;
        self.scroll = if moved <= last { moved } else { last };
    }

    /// Carries out `details_panel_event`: scrolls by the rows it names, or
    /// toggles wrapping.
    pub fn handle_event(&mut self, details_panel_event: DetailsPanelEvent)
        requires
            old(self).line_count() >= 1 || details_panel_event is ToggleWrap,
            details_panel_event matches DetailsPanelEvent::ScrollUpRows(i) ==> i != isize::MIN,
        ensures
            final(self).view_height() == old(self).view_height(),
            final(self).line_count() == old(self).line_count(),
            match event_rows(details_panel_event, old(self).view_height()) {
                Some(d) => final(self).position() == scrolled(old(self).position(), d as isize, old(self).line_count())
                    && final(self).wraps() == old(self).wraps(),
                None => final(self).position() == old(self).position() && final(self).wraps() == !old(self).wraps(),
            },
    {
        match details_panel_event {
            DetailsPanelEvent::ScrollDown => self.scroll(1),
            DetailsPanelEvent::ScrollUp => self.scroll(-1),
            DetailsPanelEvent::ScrollDownRows(i) => self.scroll(i),
            DetailsPanelEvent::ScrollUpRows(i) => self.scroll(-i),
            DetailsPanelEvent::ScrollDownHalfPage => self.scroll(self.height as isize / 2),
            DetailsPanelEvent::ScrollUpHalfPage => self.scroll(-(self.height as isize / 2)),
            DetailsPanelEvent::ScrollDownPage => self.scroll(self.height as isize),
            DetailsPanelEvent::ScrollUpPage => self.scroll(-(self.height as isize)),
            DetailsPanelEvent::ToggleWrap => self.wrap = !self.wrap,
        }
    }
    /// Handles `key` if it stands for a panel command, and says whether it did.
    pub fn input(&mut self, key: KeyEvent) -> (handled: bool)
        requires
            old(self).line_count() >= 1 || !(key_command(key) matches Some(e) && !(e is ToggleWrap)),
        ensures
            handled == key_command(key).is_some(),
            final(self).view_height() == old(self).view_height(),
            final(self).line_count() == old(self).line_count(),
            match key_command(key) {
                Some(e) => match event_rows(e, old(self).view_height()) {
                    Some(d) => final(self).position() == scrolled(old(self).position(), d as isize, old(self).line_count())
                        && final(self).wraps() == old(self).wraps(),
                    None => final(self).position() == old(self).position() && final(self).wraps() == !old(self).wraps(),
                },
                None => final(self).position() == old(self).position() && final(self).wraps() == old(self).wraps(),
            },
    {
        match command_of_key(key) {
            Some(e) => {
                self.handle_event(e);
                true
            },
            None => false,
        }
    }
}


/// The scroll keys move the text the way they say: with Ctrl held, `e`, `d`
/// and `f` scroll down by a row, half a page and a page, and `y`, `u` and `b`
/// scroll up by as much. So a down key never moves a panel that shows its
/// text up, and an up key never moves it down.
pub proof fn lemma_scroll_keys(key: KeyEvent, pos: u16, height: u16, lines: u16)
    requires
        ctrl_held(key),
        height <= 0x7fff,
        lines >= 1,
    ensures
        key.code == KeyCode::Char('e') ==> (key_command(key) matches Some(e) && event_rows(e, height) == Some(1int)),
        key.code == KeyCode::Char('y') ==> (key_command(key) matches Some(e) && event_rows(e, height) == Some(-1int)),
        key.code == KeyCode::Char('d') ==> (key_command(key) matches Some(e) && event_rows(e, height) == Some(
            (height / 2) as int,
        )),
        key.code == KeyCode::Char('u') ==> (key_command(key) matches Some(e) && event_rows(e, height) == Some(
            -((height / 2) as int),
        )),
        key.code == KeyCode::Char('f') ==> (key_command(key) matches Some(e) && event_rows(e, height) == Some(
            height as int,
        )),
        key.code == KeyCode::Char('b') ==> (key_command(key) matches Some(e) && event_rows(e, height) == Some(
            -(height as int),
        )),
        (key.code == KeyCode::Char('e') || key.code == KeyCode::Char('d') || key.code == KeyCode::Char('f'))
            && pos <= lines - 1 ==> (key_command(key) matches Some(e) && event_rows(e, height) matches Some(d)
            && scrolled(pos, d as isize, lines) >= pos),
        (key.code == KeyCode::Char('y') || key.code == KeyCode::Char('u') || key.code == KeyCode::Char('b'))
            ==> (key_command(key) matches Some(e) && event_rows(e, height) matches Some(d) && scrolled(
            pos,
            d as isize,
            lines,
        ) <= pos),
{
}

/// Scrolling never shows the text from past its last line, and moving by
/// no row keeps a position that is within the text.
pub proof fn lemma_scroll_within_text(scroll: u16, delta: isize, lines: u16)
    requires
        lines >= 1,
    ensures
        scrolled(scroll, delta, lines) <= lines - 1,
        scroll <= lines - 1 ==> scrolled(scroll, 0, lines) == scroll,
{
}

} // verus!
