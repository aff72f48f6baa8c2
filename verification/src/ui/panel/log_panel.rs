//! The list of changes on the left of the log tab: which change is
//! selected, where it is in the graph, and how the selection moves.
//!
//! The panel works with two indices: a line index into the graph text,
//! used for scrolling the display, and a head index into the list of
//! changes, used for moving the selection.
use vstd::prelude::*;

use crate::commander::log::{head_views, opt_head_views, Head, LogOutput};
use crate::commander::CommandError;
use crate::keybinds::LogTabEvent;
use crate::ui::utils::{
    first_where, lemma_first_where_is, lemma_first_where_none, opt_int, scroll_index, scrolled_index, Rect,
};

verus! {

/// The view of a change.
pub type HeadView = (Seq<char>, Seq<char>, bool, bool);

/// The place of `head` among the changes of a log: the first change equal
/// to it, or else the first with its change id.
pub open spec fn head_index_in(heads: Seq<HeadView>, head: HeadView) -> Option<int> {
    match first_where(heads, |h: HeadView| h == head) {
        Some(i) => Some(i),
        None => first_where(heads, |h: HeadView| h.0 == head.0),
    }
}

fn position_of_head(head: &Head, heads: &Vec<Head>) -> (r: Option<usize>)
    ensures
        r matches Some(i) ==> i < heads@.len(),
        opt_int(r) == first_where(head_views(heads@), |h: HeadView| h == head@),
{
    let ghost hv = head_views(heads@);
    let ghost p = |h: HeadView| h == head@;
    let mut i: usize = 0;
    while i < heads.len()
        invariant
            i <= heads@.len(),
            hv == head_views(heads@),
            p == (|h: HeadView| h == head@),
            forall|j: int| 0 <= j < i ==> !p(#[trigger] hv[j]),
        decreases heads@.len() - i,
    {
        if heads[i].same_as(head) {
            proof {
                lemma_first_where_is(hv, p, i as int);
            }
            return Some(i);
        }
        i = i + 1;
    }
    proof {
        lemma_first_where_none(hv, p);
    }
    None
}

fn position_of_change(head: &Head, heads: &Vec<Head>) -> (r: Option<usize>)
    ensures
        r matches Some(i) ==> i < heads@.len(),
        opt_int(r) == first_where(head_views(heads@), |h: HeadView| h.0 == head@.0),
{
    let ghost hv = head_views(heads@);
    let ghost p = |h: HeadView| h.0 == head@.0;
    let mut i: usize = 0;
    while i < heads.len()
        invariant
            i <= heads@.len(),
            hv == head_views(heads@),
            p == (|h: HeadView| h.0 == head@.0),
            forall|j: int| 0 <= j < i ==> !p(#[trigger] hv[j]),
        decreases heads@.len() - i,
    {
        if heads[i].change_id.same_as(&head.change_id) {
            proof {
                lemma_first_where_is(hv, p, i as int);
            }
            return Some(i);
        }
        i = i + 1;
    }
    proof {
        lemma_first_where_none(hv, p);
    }
    None
}

/// The place of `head` among the changes of the log: the first change
/// equal to it, or else the first with its change id; None when the log
/// could not be had.
pub fn get_head_index(head: &Head, log_output: &Result<LogOutput, CommandError>) -> (r: Option<usize>)
    ensures
        match log_output {
            Ok(o) => opt_int(r) == head_index_in(head_views(o.heads@), head@) && (r matches Some(i) ==> i < o.heads@.len()),
            Err(_) => r is None,
        },
{
    match log_output {
        Ok(o) => match position_of_head(head, &o.heads) {
            Some(i) => Some(i),
            None => position_of_change(head, &o.heads),
        },
        Err(_) => None,
    }
}

fn line_of_head(head: &Head, graph_heads: &Vec<Option<Head>>) -> (r: Option<usize>)
    ensures
        opt_int(r) == first_where(opt_head_views(graph_heads@), |l: Option<HeadView>| l == Some(head@)),
{
    let ghost lv = opt_head_views(graph_heads@);
    let ghost p = |l: Option<HeadView>| l == Some(head@);
    let mut i: usize = 0;
    while i < graph_heads.len()
        invariant
            i <= graph_heads@.len(),
            lv == opt_head_views(graph_heads@),
            p == (|l: Option<HeadView>| l == Some(head@)),
            forall|j: int| 0 <= j < i ==> !p(#[trigger] lv[j]),
        decreases graph_heads@.len() - i,
    {
        let found = match &graph_heads[i] {
            Some(h) => h.same_as(head),
            None => false,
        };
        if found {
            proof {
                lemma_first_where_is(lv, p, i as int);
            }
            return Some(i);
        }
        i = i + 1;
    }
    proof {
        lemma_first_where_none(lv, p);
    }
    None
}

/// The line of the graph that shows `head`: the first line whose change
/// is `head`; None when the log could not be had.
pub fn selected_log_line(head: &Head, log_output: &Result<LogOutput, CommandError>) -> (r: Option<usize>)
    ensures
        match log_output {
            Ok(o) => opt_int(r) == first_where(
                opt_head_views(o.graph_heads@),
                |l: Option<HeadView>| l == Some(head@),
            ),
            Err(_) => r is None,
        },
{
    match log_output {
        Ok(o) => line_of_head(head, &o.graph_heads),
        Err(_) => None,
    }
}

/// For each line of the graph, whether it shows `head` and so is drawn
/// highlighted; no line when the log could not be had.
pub fn highlighted_lines(head: &Head, log_output: &Result<LogOutput, CommandError>) -> (r: Vec<bool>)
    ensures
        match log_output {
            Ok(o) => r@.len() == o.graph_heads@.len() && forall|i: int|
                0 <= i < r@.len() ==> r@[i] == (opt_head_views(o.graph_heads@)[i] == Some(head@)),
            Err(_) => r@.len() == 0,
        },
{
    let mut out: Vec<bool> = Vec::new();
    match log_output {
        Ok(o) => {
            let graph_heads = &o.graph_heads;
            let ghost lv = opt_head_views(graph_heads@);
            let mut i: usize = 0;
            while i < graph_heads.len()
                invariant
                    i <= graph_heads@.len(),
                    lv == opt_head_views(graph_heads@),
                    out@.len() == i,
                    forall|j: int| 0 <= j < i ==> out@[j] == (lv[j] == Some(head@)),
                decreases graph_heads@.len() - i,
            {
                let shown = match &graph_heads[i] {
                    Some(h) => h.same_as(head),
                    None => false,
                };
                out.push(shown);
                i = i + 1;
            }
        },
        Err(_) => {},
    }
    out
}

/// The change shown on line `log_line` of the graph, if that line shows
/// one.
pub fn head_at_log_line(log_output: &Result<LogOutput, CommandError>, log_line: usize) -> (r: Option<Head>)
    ensures
        match log_output {
            Ok(o) => if log_line < o.graph_heads@.len() {
                match o.graph_heads@[log_line as int] {
                    Some(h) => r matches Some(g) && g@ == h@,
                    None => r is None,
                }
            } else {
                r is None
            },
            Err(_) => r is None,
        },
{
    match log_output {
        Ok(o) => {
            if log_line < o.graph_heads.len() {
                match &o.graph_heads[log_line] {
                    Some(h) => Some(h.duplicate()),
                    None => None,
                }
            } else {
                None
            }
        },
        Err(_) => None,
    }
}

/// How many changes fit in a list `height` rows high: each takes two rows.
pub fn visible_heads(height: u16) -> (r: u16)
    ensures
        r == height / 2,
{
    height / 2
}

/// The change selected after moving `scroll` changes from `head`: its
/// place moved and kept within the log, or the first change when `head`
/// is not in it. None (the selection stays) when the log has no change or
/// could not be had.
pub fn scroll_relative(head: &Head, log_output: &Result<LogOutput, CommandError>, scroll: isize) -> (r: Option<Head>)
    ensures
        match log_output {
            Ok(o) => {
                let current = match head_index_in(head_views(o.heads@), head@) {
                    Some(i) => Some(i as usize),
                    None => None,
                };
                match scrolled_index(current, scroll, o.heads@.len()) {
                    Some(i) => r matches Some(g) && g@ == o.heads@[i]@,
                    None => r is None,
                }
            },
            Err(_) => r is None,
        },
{
    match log_output {
        Ok(o) => {
            let current = get_head_index(head, log_output);
            match scroll_index(current, scroll, o.heads.len()) {
                Some(i) => Some(o.heads[i].duplicate()),
                None => None,
            }
        },
        Err(_) => None,
    }
}

/// The number of changes that a scroll event of the log panel moves the
/// selection by, in a list `list_height` rows high; None for other events.
pub open spec fn panel_scroll(event: LogTabEvent, list_height: u16) -> Option<isize> {
    match event {
        LogTabEvent::ScrollDown => Some(1isize),
        LogTabEvent::ScrollUp => Some(-1isize),
        LogTabEvent::ScrollDownHalf => Some(((list_height / 2) / 2) as isize),
        LogTabEvent::ScrollUpHalf => Some((-((list_height / 2) / 2)) as isize),
        _ => None,
    }
}

/// The number of changes that a scroll event moves the selection by.
pub fn panel_scroll_amount(event: LogTabEvent, list_height: u16) -> (r: Option<isize>)
    ensures
        r == panel_scroll(event, list_height),
{
    let half: isize = (visible_heads(list_height) / 2) as isize;
    match event {
        LogTabEvent::ScrollDown => Some(1),
        LogTabEvent::ScrollUp => Some(-1),
        LogTabEvent::ScrollDownHalf => Some(half),
        LogTabEvent::ScrollUpHalf => Some(-half),
        _ => None,
    }
}

/// The line of a list, shown from line `offset` in `list_rect` one line
/// per row, that the cell at (`column`, `row`) falls on; None outside the
/// list or past its last line.
pub fn list_item_from_mouse_event(
    list_len: usize,
    list_rect: Rect,
    offset: usize,
    column: u16,
    row: u16,
) -> (r: Option<usize>)
    ensures
        r == (if list_rect.holds(column, row) && offset + (row - list_rect.y) < list_len {
            Some((offset + (row - list_rect.y)) as usize)
        } else {
            None
        }),
{
    if !list_rect.contains(column, row) {
        return None;
    }
    let down: usize = (row - list_rect.y) as usize;
    if offset >= list_len || down >= list_len - offset {
        None
    } else {
        Some(offset + down)
    }
}

/// What a mouse does over the log.
#[derive(Clone, Copy, Debug, PartialEq, Eq, Structural)]
pub enum MouseKind {
    ScrollUp,
    ScrollDown,
    ButtonUp,
    Other,
}

/// What the log panel does with a mouse event.
#[derive(Clone, Copy, Debug, PartialEq, Eq, Structural)]
pub enum MouseStep {
    /// Not over the panel, or nothing to do: not handled.
    NotHandled,
    /// Scroll the selection as this event does; handled.
    Scroll(LogTabEvent),
    /// Select the change on the clicked line, if any; not handled.
    SelectClicked,
}

/// What the log panel, drawn in `panel_rect`, does with a mouse event at
/// (`column`, `row`): the wheel scrolls the selection and a released
/// button selects the clicked change, inside the panel only.
pub open spec fn mouse_step(panel_rect: Rect, column: u16, row: u16, kind: MouseKind) -> MouseStep {
    if !panel_rect.holds(column, row) {
        MouseStep::NotHandled
    } else {
        match kind {
            MouseKind::ScrollUp => MouseStep::Scroll(LogTabEvent::ScrollUp),
            MouseKind::ScrollDown => MouseStep::Scroll(LogTabEvent::ScrollDown),
            MouseKind::ButtonUp => MouseStep::SelectClicked,
            MouseKind::Other => MouseStep::NotHandled,
        }
    }
}

/// What the log panel does with a mouse event.
pub fn mouse_action(panel_rect: Rect, column: u16, row: u16, kind: MouseKind) -> (r: MouseStep)
    ensures
        r == mouse_step(panel_rect, column, row, kind),
{
    if !panel_rect.contains(column, row) {
        return MouseStep::NotHandled;
    }
    match kind {
        MouseKind::ScrollUp => MouseStep::Scroll(LogTabEvent::ScrollUp),
        MouseKind::ScrollDown => MouseStep::Scroll(LogTabEvent::ScrollDown),
        MouseKind::ButtonUp => MouseStep::SelectClicked,
        MouseKind::Other => MouseStep::NotHandled,
    }
}

} // verus!
