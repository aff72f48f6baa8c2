//! Text clean-up for terminal output and small layout arithmetic.
use vstd::prelude::*;

use crate::strings::{chars_of, string_from_chars};
use ratatui::layout as tui;

verus! {

/// The first position at or after `from` that holds a `';'`, or `s.len()`.
pub open spec fn first_semicolon_from(s: Seq<char>, from: int) -> int
    decreases s.len() - from,
{
    if from < 0 || from >= s.len() {
        s.len() as int
    } else if s[from] == ';' {
        from
    } else {
        first_semicolon_from(s, from + 1)
    }
}

/// The first position at or after `from` that holds a BEL (`'\x07'`) or an
/// ESC (`'\x1b'`), or `s.len()`.
pub open spec fn first_terminator_from(s: Seq<char>, from: int) -> int
    decreases s.len() - from,
{
    if from < 0 || from >= s.len() {
        s.len() as int
    } else if s[from] == '\x07' || s[from] == '\x1b' {
        from
    } else {
        first_terminator_from(s, from + 1)
    }
}

/// The length of the OSC 8 hyperlink sequence `ESC ] 8 ; params ; URL ST`
/// that `s` starts with, if it starts with one. `params` holds no `';'`, the
/// URL holds neither BEL nor ESC, and ST is BEL or `ESC \`.
pub open spec fn osc8_len(s: Seq<char>) -> Option<int> {
    if s.len() >= 4 && s[0] == '\x1b' && s[1] == ']' && s[2] == '8' && s[3] == ';' {
        let j = first_semicolon_from(s, 4);
        if j >= s.len() {
            None
        } else {
            let k = first_terminator_from(s, j + 1);
            if k >= s.len() {
                None
            } else if s[k] == '\x07' {
                Some(k + 1)
            } else if k + 1 < s.len() && s[k + 1] == '\\' {
                Some(k + 2)
            } else {
                None
            }
        }
    } else {
        None
    }
}

/// `s` with every OSC 8 hyperlink sequence removed, scanning from the left and
/// resuming after each removed sequence.
pub open spec fn strip_osc8(s: Seq<char>) -> Seq<char>
    decreases s.len(),
{
    if s.len() == 0 {
        seq![]
    } else {
        match osc8_len(s) {
            Some(n) => if 0 < n <= s.len() { strip_osc8(s.skip(n)) } else { seq![] },
            None => seq![s[0]] + strip_osc8(s.skip(1)),
        }
    }
}

proof fn lemma_first_semicolon_bounds(s: Seq<char>, from: int)
    requires
        0 <= from,
    ensures
        from <= first_semicolon_from(s, from) <= s.len() || (from > s.len() && first_semicolon_from(s, from) == s.len()),
    decreases s.len() - from,
{
    if from < s.len() && s[from] != ';' {
        lemma_first_semicolon_bounds(s, from + 1);
    }
}

proof fn lemma_first_terminator_bounds(s: Seq<char>, from: int)
    requires
        0 <= from,
    ensures
        from <= first_terminator_from(s, from) <= s.len() || (from > s.len() && first_terminator_from(s, from) == s.len()),
    decreases s.len() - from,
{
    if from < s.len() && s[from] != '\x07' && s[from] != '\x1b' {
        lemma_first_terminator_bounds(s, from + 1);
    }
}

/// A matched sequence is never empty and never runs past the end of `s`.
pub proof fn lemma_osc8_len_bounds(s: Seq<char>)
    ensures
        osc8_len(s) matches Some(n) ==> 4 < n <= s.len(),
{
    if s.len() >= 4 && s[0] == '\x1b' && s[1] == ']' && s[2] == '8' && s[3] == ';' {
        lemma_first_semicolon_bounds(s, 4);
        let j = first_semicolon_from(s, 4);
        if j < s.len() {
            lemma_first_terminator_bounds(s, j + 1);
        }
    }
}

/// The length of the OSC 8 sequence that starts at position `i` of `v`.
fn osc8_len_at(v: &Vec<char>, i: usize) -> (r: Option<usize>)
    requires
        i <= v@.len(),
    ensures
        r matches Some(n) ==> osc8_len(v@.skip(i as int)) == Some(n as int),
        r is None ==> osc8_len(v@.skip(i as int)) is None,
{
    let ghost t = v@.skip(i as int);
    proof {
        lemma_osc8_len_bounds(t);
    }
    let len = v.len();
    if !(len - i >= 4 && v[i] == '\x1b' && v[i + 1] == ']' && v[i + 2] == '8' && v[i + 3] == ';') {
        return None;
    }
    let mut j: usize = i + 4;
    while j < len && v[j] != ';'
        invariant
            i + 4 <= j <= len,
            len == v@.len(),
            t == v@.skip(i as int),
            first_semicolon_from(t, (j - i) as int) == first_semicolon_from(t, 4),
        decreases len - j,
    {
        j = j + 1;
    }
    if j >= len {
        return None;
    }
    let mut k: usize = j + 1;
    while k < len && v[k] != '\x07' && v[k] != '\x1b'
        invariant
            j + 1 <= k <= len,
            i + 4 <= j < len,
            len == v@.len(),
            t == v@.skip(i as int),
            first_terminator_from(t, (k - i) as int) == first_terminator_from(t, (j - i) as int + 1),
        decreases len - k,
    {
        assert(t[(k - i) as int] == v@[k as int]);
        k = k + 1;
    }
    if k >= len {
        None
    } else if v[k] == '\x07' {
        Some(k + 1 - i)
    } else if k + 1 < len && v[k + 1] == '\\' {
        Some(k + 2 - i)
    } else {
        None
    }
}

/// Strip OSC 8 hyperlink escape sequences from a string.
///
/// OSC 8 is used by terminals to create clickable hyperlinks:
/// `\x1b]8;;URL\x1b\\text\x1b]8;;\x1b\\`
///
/// These sequences are emitted by tools like delta but don't render
/// well in TUI applications, so we strip them while preserving the
/// visible text content.
pub fn strip_osc8_hyperlinks(text: &str) -> (r: String)
    ensures
        r@ == strip_osc8(text@),
{
    let v = chars_of(text);
    let mut out: Vec<char> = Vec::new();
    let mut i: usize = 0;
    assert(v@.skip(0) =~= v@);
    while i < v.len()
        invariant
            i <= v@.len(),
            v@ == text@,
            out@ + strip_osc8(v@.skip(i as int)) == strip_osc8(v@),
        decreases v@.len() - i,
    {
        let ghost t = v@.skip(i as int);
        proof {
            lemma_osc8_len_bounds(t);
        }
        match osc8_len_at(&v, i) {
            Some(n) => {
                assert(t.skip(n as int) =~= v@.skip(i + n));
                i = i + n;
            },
            None => {
                assert(t.skip(1) =~= v@.skip(i + 1));
                assert(t[0] == v@[i as int]);
                out.push(v[i]);
                i = i + 1;
            },
        }
    }
    assert(strip_osc8(v@.skip(i as int)) =~= seq![]);
    assert(out@ =~= strip_osc8(v@));
    string_from_chars(out.as_slice())
}


/// Width of a tab stop when tabs are expanded.
pub const TAB_WIDTH: usize = 4;

/// Where the scanner of `tabs_to_spaces` stands with respect to ANSI escape
/// sequences.
#[derive(PartialEq, Eq, Structural, Clone, Copy, Debug)]
pub enum AnsiState {
    Neutral,
    Escape,
    Csi,
}

/// `n` spaces.
pub open spec fn spaces(n: nat) -> Seq<char>
    decreases n,
{
    if n == 0 {
        seq![]
    } else {
        spaces((n - 1) as nat).push(' ')
    }
}

/// What one character turns into, given the column `x` and the escape state
/// before it: the emitted text, the column after it and the state after it.
/// A tab, wherever it stands, becomes the spaces up to the next tab stop and
/// leaves the escape state as it was; an escape sequence (ESC, then one
/// character, or ESC `[` up to a final byte in `'\x40'..='\x7f'`) takes no
/// column; a line break resets the column.
pub open spec fn tab_step(x: nat, st: AnsiState, c: char) -> (Seq<char>, nat, AnsiState) {
    if c == '\t' {
        let w = (TAB_WIDTH - (x % TAB_WIDTH as nat)) as nat;
        (spaces(w), x + w, st)
    } else {
        match st {
            AnsiState::Neutral => {
                let x1 = if c == '\x1b' { x } else { x + 1 };
                let x2 = if c == '\r' || c == '\n' { 0 } else { x1 };
                (seq![c], x2, if c == '\x1b' { AnsiState::Escape } else { AnsiState::Neutral })
            },
            AnsiState::Escape => (seq![c], x, if c == '[' { AnsiState::Csi } else { AnsiState::Neutral }),
            AnsiState::Csi => (
                seq![c],
                x,
                if '\x40' <= c && c <= '\x7f' { AnsiState::Neutral } else { AnsiState::Csi },
            ),
        }
    }
}

/// The text, column and escape state after scanning all of `s` from column 0
/// outside any escape sequence.
pub open spec fn tabs_scan(s: Seq<char>) -> (Seq<char>, nat, AnsiState)
    decreases s.len(),
{
    if s.len() == 0 {
        (seq![], 0, AnsiState::Neutral)
    } else {
        let prev = tabs_scan(s.drop_last());
        let step = tab_step(prev.1, prev.2, s.last());
        (prev.0 + step.0, step.1, step.2)
    }
}

/// `line` with its tabs expanded to tab stops `TAB_WIDTH` columns apart.
pub open spec fn expand_tabs(line: Seq<char>) -> Seq<char> {
    tabs_scan(line).0
}

proof fn lemma_spaces_len(n: nat)
    ensures
        spaces(n).len() == n,
        forall|i: int| 0 <= i < n ==> spaces(n)[i] == ' ',
    decreases n,
{
    if n > 0 {
        lemma_spaces_len((n - 1) as nat);
    }
}

/// replaces tabs in a string by spaces
///
/// ratatui doesn't work well displaying tabs, so any
/// string that is rendered and might contain tabs
/// needs to have the tabs converted to spaces.
///
/// this function aligns tabs in the input string to
/// virtual tab stops 4 spaces apart, taking care
/// to count ansi control sequences as zero width.
pub fn tabs_to_spaces(line: &str) -> (r: String)
    ensures
        r@ == expand_tabs(line@),
        !r@.contains('\t'),
{
    proof {
        lemma_expand_tabs_no_tab(line@);
    }
    let v = chars_of(line);
    let mut out: Vec<char> = Vec::new();
    // the column, counted modulo the tab width
    let mut col: usize = 0;
    let mut ansi_state = AnsiState::Neutral;
    let mut i: usize = 0;
    assert(v@.take(0) =~= seq![]);
    while i < v.len()
        invariant
            i <= v@.len(),
            v@ == line@,
            col < TAB_WIDTH,
            ({
                let sc = tabs_scan(v@.take(i as int));
                &&& out@ == sc.0
                &&& col == sc.1 % (TAB_WIDTH as nat)
                &&& ansi_state == sc.2
            }),
        decreases v@.len() - i,
    {
        let c = v[i];
        let ghost prefix = v@.take(i + 1);
        let ghost prev = tabs_scan(v@.take(i as int));
        proof {
            assert(prefix.drop_last() =~= v@.take(i as int));
            assert(prefix.last() == c);
        }
        let ghost out_before = out@;
        if c == '\t' {
            let w = TAB_WIDTH - col;
            let mut n: usize = 0;
            while n < w
                invariant
                    n <= w,
                    out@ == out_before + spaces(n as nat),
                decreases w - n,
            {
                out.push(' ');
                n = n + 1;
            }
            col = 0;
            proof {
                let x: int = prev.1 as int;
                assert((x + (4 - x % 4)) % 4 == 0) by (nonlinear_arith)
                    requires x >= 0;
                lemma_spaces_len(w as nat);
            }
        } else {
            out.push(c);
            match ansi_state {
                AnsiState::Neutral => {
                    if c == '\x1b' {
                        ansi_state = AnsiState::Escape;
                    } else {
                        col = (col + 1) % TAB_WIDTH;
                        proof {
                            let x: int = prev.1 as int;
                            assert((x + 1) % 4 == ((x % 4) + 1) % 4) by (nonlinear_arith)
                                requires x >= 0;
                        }
                    }
                    if c == '\r' || c == '\n' {
                        col = 0;
                    }
                },
                AnsiState::Escape => {
                    ansi_state = if c == '[' {
                        AnsiState::Csi
                    } else {
                        AnsiState::Neutral
                    };
                },
                AnsiState::Csi => {
                    if '\x40' <= c && c <= '\x7f' {
                        ansi_state = AnsiState::Neutral;
                    }
                },
            }
        }
        i = i + 1;
    }
    assert(v@.take(v@.len() as int) =~= v@);
    string_from_chars(out.as_slice())
}

/// Tab expansion leaves a text without tabs as it is.
pub proof fn lemma_expand_tabs_without_tabs(s: Seq<char>)
    requires
        !s.contains('\t'),
    ensures
        expand_tabs(s) == s,
    decreases s.len(),
{
    if s.len() > 0 {
        assert(!s.drop_last().contains('\t')) by {
            if s.drop_last().contains('\t') {
                let k = choose|k: int| 0 <= k < s.drop_last().len() && s.drop_last()[k] == '\t';
                assert(s[k] == '\t');
            }
        }
        lemma_expand_tabs_without_tabs(s.drop_last());
        assert(s.last() != '\t') by {
            assert(s[s.len() - 1] == s.last());
        }
        assert(s.drop_last() + seq![s.last()] =~= s);
    }
}

/// Tab expansion leaves no tab in the text.
pub proof fn lemma_expand_tabs_no_tab(s: Seq<char>)
    ensures
        !expand_tabs(s).contains('\t'),
    decreases s.len(),
{
    if s.len() > 0 {
        lemma_expand_tabs_no_tab(s.drop_last());
        let prev = tabs_scan(s.drop_last());
        let step = tab_step(prev.1, prev.2, s.last());
        if s.last() == '\t' {
            lemma_spaces_len((TAB_WIDTH - (prev.1 % TAB_WIDTH as nat)) as nat);
        }
        assert(!step.0.contains('\t'));
        assert forall|k: int| 0 <= k < (prev.0 + step.0).len() implies (prev.0 + step.0)[k] != '\t' by {
            if k < prev.0.len() {
                assert((prev.0 + step.0)[k] == prev.0[k]);
            } else {
                assert((prev.0 + step.0)[k] == step.0[k - prev.0.len()]);
            }
        }
    }
}

/// Expanding tabs twice gives what expanding them once gives.
pub proof fn lemma_expand_tabs_idempotent(s: Seq<char>)
    ensures
        expand_tabs(expand_tabs(s)) == expand_tabs(s),
{
    lemma_expand_tabs_no_tab(s);
    lemma_expand_tabs_without_tabs(expand_tabs(s));
}

/// Scanning `p + q`, where the scan of `p` ends at column 0 outside any
/// escape sequence, continues as a fresh scan of `q`.
proof fn lemma_tabs_scan_append(p: Seq<char>, q: Seq<char>)
    requires
        tabs_scan(p).1 == 0,
        tabs_scan(p).2 == AnsiState::Neutral,
    ensures
        tabs_scan(p + q) == (tabs_scan(p).0 + tabs_scan(q).0, tabs_scan(q).1, tabs_scan(q).2),
    decreases q.len(),
{
    if q.len() == 0 {
        assert(p + q =~= p);
        assert(tabs_scan(p).0 + tabs_scan(q).0 =~= tabs_scan(p).0);
    } else {
        lemma_tabs_scan_append(p, q.drop_last());
        assert((p + q).drop_last() =~= p + q.drop_last());
        assert((p + q).last() == q.last());
        let a = tabs_scan(p).0;
        let b = tabs_scan(q.drop_last()).0;
        let c = tab_step(tabs_scan(q.drop_last()).1, tabs_scan(q.drop_last()).2, q.last()).0;
        assert(a + b + c =~= a + (b + c));
    }
}

/// Scanning text without an escape character ends outside any escape
/// sequence.
proof fn lemma_tabs_scan_neutral(s: Seq<char>)
    requires
        !s.contains('\x1b'),
    ensures
        tabs_scan(s).2 == AnsiState::Neutral,
    decreases s.len(),
{
    if s.len() > 0 {
        assert(!s.drop_last().contains('\x1b')) by {
            if s.drop_last().contains('\x1b') {
                let k = choose|k: int| 0 <= k < s.drop_last().len() && s.drop_last()[k] == '\x1b';
                assert(s[k] == '\x1b');
            }
        }
        lemma_tabs_scan_neutral(s.drop_last());
        assert(s.last() != '\x1b') by {
            assert(s[s.len() - 1] == s.last());
        }
    }
}

/// Tab stops restart on every line: expanding `a`, a line break and `b`
/// gives `a` expanded, the line break and `b` expanded, when `a` holds no
/// escape character.
pub proof fn lemma_expand_tabs_per_line(a: Seq<char>, b: Seq<char>)
    requires
        !a.contains('\x1b'),
    ensures
        expand_tabs(a + seq!['\n'] + b) == expand_tabs(a) + seq!['\n'] + expand_tabs(b),
{
    let an = a + seq!['\n'];
    lemma_tabs_scan_neutral(a);
    assert(an.drop_last() =~= a);
    assert(an.last() == '\n');
    assert(tabs_scan(an).1 == 0 && tabs_scan(an).2 == AnsiState::Neutral);
    lemma_tabs_scan_append(an, b);
    assert(tabs_scan(an).0 =~= tabs_scan(a).0 + seq!['\n']);
}

/// Tab expansion never shortens a text.
pub proof fn lemma_expand_tabs_not_shorter(s: Seq<char>)
    ensures
        expand_tabs(s).len() >= s.len(),
    decreases s.len(),
{
    if s.len() > 0 {
        lemma_expand_tabs_not_shorter(s.drop_last());
        let prev = tabs_scan(s.drop_last());
        if s.last() == '\t' {
            let x = prev.1;
            let w = (TAB_WIDTH - (x % TAB_WIDTH as nat)) as nat;
            lemma_spaces_len(w);
        }
    }
}


/// A rectangle of terminal cells: its top-left corner and its size.
#[derive(Clone, Copy, Debug, PartialEq, Eq, Structural)]
pub struct Rect {
    pub x: u16,
    pub y: u16,
    pub width: u16,
    pub height: u16,
}

/// The axis along which a layout splits an area.
#[derive(Clone, Copy, Debug, PartialEq, Eq, Structural)]
pub enum Direction {
    Horizontal,
    Vertical,
}

/// How much room one part of a layout asks for.
#[derive(Clone, Copy, Debug, PartialEq, Eq, Structural)]
pub enum Constraint {
    Percentage(u16),
    Length(u16),
    Fill(u16),
}

impl Rect {
    /// The empty rectangle at the origin.
    pub fn zero() -> (r: Rect)
        ensures
            r == (Rect { x: 0, y: 0, width: 0, height: 0 }),
    {
        Rect { x: 0, y: 0, width: 0, height: 0 }
    }

    /// The column just right of the rectangle, saturated at the screen limit.
    pub fn right(&self) -> (r: u16)
        ensures
            r == self.x.saturating_add(self.width),
    {
        self.x.saturating_add(self.width)
    }

    /// The row just below the rectangle, saturated at the screen limit.
    pub fn bottom(&self) -> (r: u16)
        ensures
            r == self.y.saturating_add(self.height),
    {
        self.y.saturating_add(self.height)
    }

    /// Whether the cell at (`column`, `row`) lies inside the rectangle.
    pub open spec fn holds(self, column: u16, row: u16) -> bool {
        &&& self.x <= column < self.x.saturating_add(self.width)
        &&& self.y <= row < self.y.saturating_add(self.height)
    }

    /// Whether the cell at (`column`, `row`) lies inside the rectangle.
    pub fn contains(&self, column: u16, row: u16) -> (r: bool)
        ensures
            r == self.holds(column, row),
    {
        column >= self.x && column < self.right() && row >= self.y && row < self.bottom()
    }
}

/// The areas that a layout along `direction` with `constraints` gives to
/// each part of `area`, in order.
pub uninterp spec fn layout_split(area: Rect, direction: Direction, constraints: Seq<Constraint>) -> Seq<Rect>;

/// Whether `constraints` is one of the two centering layouts the library
/// asks for: equal percentages on both sides of a middle percentage, or
/// equal fills on both sides of a fixed length.
pub open spec fn is_centering(constraints: Seq<Constraint>) -> bool {
    ||| exists|p: u16| p <= 100 && constraints == centered_percentages(p)
    ||| exists|n: u16| constraints == centered_lines(n)
}

/// Splits `area` with ratatui's constraint solver (`ratatui::layout::Layout::split`).
/// Trusted: the areas are those that `layout_split` names for these arguments,
/// one per constraint, as the solver's source builds one segment per
/// constraint. It is only used on the centering layouts of `is_centering`,
/// whose equal sides leave the solver one answer. Where each area lies is
/// left to the solver and not stated.
#[verifier::external_body]
fn split_area(area: Rect, direction: Direction, constraints: &[Constraint]) -> (r: Vec<Rect>)
    requires
        is_centering(constraints@),
    ensures
        r@ == layout_split(area, direction, constraints@),
        r@.len() == constraints@.len(),
{
    let cs = constraints.iter().map(|c| match *c {
        Constraint::Percentage(n) => tui::Constraint::Percentage(n),
        Constraint::Length(n) => tui::Constraint::Length(n),
        Constraint::Fill(n) => tui::Constraint::Fill(n),
    });
    let area = tui::Rect { x: area.x, y: area.y, width: area.width, height: area.height };
    let parts = match direction {
        Direction::Horizontal => tui::Layout::horizontal(cs).split(area),
        Direction::Vertical => tui::Layout::vertical(cs).split(area),
    };
    parts.iter().map(|p| Rect { x: p.x, y: p.y, width: p.width, height: p.height }).collect()
}

/// The three percentages that center a part of `percent` percent.
pub open spec fn centered_percentages(percent: u16) -> Seq<Constraint> {
    seq![
        Constraint::Percentage(((100 - percent) / 2) as u16),
        Constraint::Percentage(percent),
        Constraint::Percentage(((100 - percent) / 2) as u16),
    ]
}

fn centered_constraints(percent: u16) -> (r: Vec<Constraint>)
    requires
        percent <= 100,
    ensures
        r@ == centered_percentages(percent),
{
    let side: u16 = (100 - percent) / 2;
    let r = vec![Constraint::Percentage(side), Constraint::Percentage(percent), Constraint::Percentage(side)];
    assert(r@ =~= centered_percentages(percent));
    r
}

/// A centered part of `r`, `percent_x` percent wide and `percent_y` percent high.
pub fn centered_rect(r: Rect, percent_x: u16, percent_y: u16) -> (c: Rect)
    requires
        percent_x <= 100,
        percent_y <= 100,
    ensures
        c == layout_split(
            layout_split(r, Direction::Vertical, centered_percentages(percent_y))[1],
            Direction::Horizontal,
            centered_percentages(percent_x),
        )[1],
{
    let rows_c = centered_constraints(percent_y);
    let cols_c = centered_constraints(percent_x);
    assert(is_centering(rows_c@) && is_centering(cols_c@));
    let rows = split_area(r, Direction::Vertical, rows_c.as_slice());
    let cols = split_area(rows[1], Direction::Horizontal, cols_c.as_slice());
    cols[1]
}

/// The constraints that center a part `lines` rows high.
pub open spec fn centered_lines(lines: u16) -> Seq<Constraint> {
    seq![Constraint::Fill(1), Constraint::Length(lines), Constraint::Fill(1)]
}

/// A centered part of `r`, `percent_x` percent wide and `lines_y` rows high.
pub fn centered_rect_line_height(r: Rect, percent_x: u16, lines_y: u16) -> (c: Rect)
    requires
        percent_x <= 100,
    ensures
        c == layout_split(
            layout_split(r, Direction::Vertical, centered_lines(lines_y))[1],
            Direction::Horizontal,
            centered_percentages(percent_x),
        )[1],
{
    let rows_c = vec![Constraint::Fill(1), Constraint::Length(lines_y), Constraint::Fill(1)];
    assert(rows_c@ =~= centered_lines(lines_y));
    let cols_c = centered_constraints(percent_x);
    assert(is_centering(rows_c@) && is_centering(cols_c@));
    let rows = split_area(r, Direction::Vertical, rows_c.as_slice());
    let cols = split_area(rows[1], Direction::Horizontal, cols_c.as_slice());
    cols[1]
}

/// A rectangle of at most `width` by `height` cells, centered in `area`.
pub fn centered_rect_fixed(area: Rect, width: u16, height: u16) -> (r: Rect)
    requires
        area.x + (area.width.saturating_sub(width)) / 2 <= u16::MAX,
        area.y + (area.height.saturating_sub(height)) / 2 <= u16::MAX,
    ensures
        r.x == area.x + (area.width.saturating_sub(width)) / 2,
        r.y == area.y + (area.height.saturating_sub(height)) / 2,
        r.width == (if width <= area.width { width } else { area.width }),
        r.height == (if height <= area.height { height } else { area.height }),
{
    let x = area.x + (area.width.saturating_sub(width)) / 2;
    let y = area.y + (area.height.saturating_sub(height)) / 2;
    Rect {
        x,
        y,
        width: if width <= area.width { width } else { area.width },
        height: if height <= area.height { height } else { area.height },
    }
}


/// `v` clamped to `lo..=hi`.
pub open spec fn clamp(v: int, lo: int, hi: int) -> int {
    if v < lo {
        lo
    } else if v > hi {
        hi
    } else {
        v
    }
}

/// The item selected after scrolling a list of `len` items by `scroll`
/// items from the item at `current`: it stays within the list. With no
/// current item the first item is selected; an empty list has none.
pub open spec fn scrolled_index(current: Option<usize>, scroll: isize, len: nat) -> Option<int> {
    match current {
        Some(c) => Some(clamp(c + scroll, 0, len - 1)),
        None => if len > 0 {
            Some(0)
        } else {
            None
        },
    }
}

/// The item selected after scrolling a list of `len` items by `scroll`
/// items from the item at `current`.
pub fn scroll_index(current: Option<usize>, scroll: isize, len: usize) -> (r: Option<usize>)
    requires
        current matches Some(c) ==> c < len,
    ensures
        r matches Some(i) ==> i < len,
        r == (match scrolled_index(current, scroll, len as nat) {
            Some(i) => Some(i as usize),
            None => None::<usize>,
        }),
{
    match current {
        Some(c) => {
            let last = len - 1;
            if scroll >= 0 {
                let s = scroll as usize;
                if s >= last - c {
                    Some(last)
                } else {
                    Some(c + s)
                }
            } else {
                let back: usize = (-(scroll + 1)) as usize + 1;
                if back >= c {
                    Some(0)
                } else {
                    Some(c - back)
                }
            }
        },
        None => if len > 0 {
            Some(0)
        } else {
            None
        },
    }
}


/// The first place of `s` whose item meets `p`, if any.
pub open spec fn first_where<T>(s: Seq<T>, p: spec_fn(T) -> bool) -> Option<int> {
    if exists|i: int| 0 <= i < s.len() && p(s[i]) && forall|j: int| 0 <= j < i ==> !p(#[trigger] s[j]) {
        Some(choose|i: int| 0 <= i < s.len() && p(s[i]) && forall|j: int| 0 <= j < i ==> !p(#[trigger] s[j]))
    } else {
        None
    }
}

/// A place whose item meets `p` while no earlier one does is the first.
pub proof fn lemma_first_where_is<T>(s: Seq<T>, p: spec_fn(T) -> bool, i: int)
    requires
        0 <= i < s.len(),
        p(s[i]),
        forall|j: int| 0 <= j < i ==> !p(#[trigger] s[j]),
    ensures
        first_where(s, p) == Some(i),
{
    let k = choose|k: int| 0 <= k < s.len() && p(s[k]) && forall|j: int| 0 <= j < k ==> !p(#[trigger] s[j]);
    assert(0 <= k < s.len() && p(s[k]) && forall|j: int| 0 <= j < k ==> !p(#[trigger] s[j]));
    if k < i {
        assert(!p(s[k]));
    }
    if i < k {
        assert(!p(s[i]));
    }
}

/// Where no item meets `p`, there is no first one.
pub proof fn lemma_first_where_none<T>(s: Seq<T>, p: spec_fn(T) -> bool)
    requires
        forall|j: int| 0 <= j < s.len() ==> !p(#[trigger] s[j]),
    ensures
        first_where(s, p) is None,
{
    if exists|i: int| 0 <= i < s.len() && p(s[i]) && forall|j: int| 0 <= j < i ==> !p(#[trigger] s[j]) {
        let i = choose|i: int| 0 <= i < s.len() && p(s[i]) && forall|j: int| 0 <= j < i ==> !p(#[trigger] s[j]);
        assert(!p(s[i]));
    }
}


/// An optional place, as an integer.
pub open spec fn opt_int(r: Option<usize>) -> Option<int> {
    match r {
        Some(i) => Some(i as int),
        None => None,
    }
}


/// Text without an escape character holds no hyperlink sequence, and
/// stripping leaves it as it is.
pub proof fn lemma_strip_osc8_plain_text(s: Seq<char>)
    requires
        !s.contains('\x1b'),
    ensures
        strip_osc8(s) == s,
    decreases s.len(),
{
    if s.len() > 0 {
        assert(s[0] != '\x1b');
        let rest = s.skip(1);
        assert forall|i: int| 0 <= i < rest.len() implies rest[i] != '\x1b' by {
            assert(rest[i] == s[i + 1]);
        }
        lemma_strip_osc8_plain_text(rest);
        assert(seq![s[0]] + rest =~= s);
    }
}

/// Scrolling by no item keeps the selected item, and scrolling always
/// selects an item of the list, if it has one.
pub proof fn lemma_scrolled_index_stays(current: Option<usize>, scroll: isize, len: nat)
    requires
        current matches Some(c) ==> c < len,
    ensures
        current matches Some(c) ==> scrolled_index(current, 0, len) == Some(c as int),
        scrolled_index(current, scroll, len) matches Some(i) ==> 0 <= i < len,
        scrolled_index(current, scroll, len) is None <==> (current is None && len == 0),
{
}

/// Scrolling down never moves the selection up, nor scrolling up down.
pub proof fn lemma_scrolled_index_monotone(c: usize, a: isize, b: isize, len: nat)
    requires
        c < len,
        a <= b,
    ensures
        scrolled_index(Some(c), a, len)->0 <= scrolled_index(Some(c), b, len)->0,
{
}

/// A rectangle centered with `centered_rect_fixed` lies inside the area it
/// is centered in.
pub proof fn lemma_centered_rect_fixed_inside(area: Rect, width: u16, height: u16, r: Rect)
    requires
        r.x == area.x + (area.width.saturating_sub(width)) / 2,
        r.y == area.y + (area.height.saturating_sub(height)) / 2,
        r.width == (if width <= area.width { width } else { area.width }),
        r.height == (if height <= area.height { height } else { area.height }),
    ensures
        area.x <= r.x,
        r.x + r.width <= area.x + area.width,
        area.y <= r.y,
        r.y + r.height <= area.y + area.height,
{
}

} // verus!
