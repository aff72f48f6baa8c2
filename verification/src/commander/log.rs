//! jj log: the head template, its parser, and the log output model.
use vstd::prelude::*;

use crate::commander::bookmarks::{ref_text, Bookmark};
use crate::commander::ids::{ChangeId, CommitId};
use crate::strings::{
    bool_word, chars_of, false_word, find_char_from, find_from, is_true_word, lemma_find_from,
    lemma_find_from_none, lemma_rfind_in, lemma_rfind_in_is, lines_of, owned, rfind_char_in, rfind_in,
    split_lines, string_from_chars, substring, true_word, views,
};
use crate::commander::{diff_format_args, end_line_removed, RemoveEndLine};
use crate::env::DiffFormat;

verus! {

/// A change as the log shows it: its change id, its commit id and two flags.
#[derive(Clone, PartialEq, Eq, Hash, Debug)]
pub struct Head {
    pub change_id: ChangeId,
    pub commit_id: CommitId,
    pub divergent: bool,
    pub immutable: bool,
}

impl View for Head {
    type V = (Seq<char>, Seq<char>, bool, bool);

    open spec fn view(&self) -> (Seq<char>, Seq<char>, bool, bool) {
        (self.change_id@, self.commit_id@, self.divergent, self.immutable)
    }
}

impl Head {
    /// A copy of this head.
    pub fn duplicate(&self) -> (r: Head)
        ensures
            r@ == self@,
    {
        Head {
            change_id: self.change_id.duplicate(),
            commit_id: self.commit_id.duplicate(),
            divergent: self.divergent,
            immutable: self.immutable,
        }
    }

    /// Whether both heads are the same (all four fields equal).
    pub fn same_as(&self, other: &Head) -> (r: bool)
        ensures
            r == (self@ == other@),
    {
        self.change_id.same_as(&other.change_id) && self.commit_id.same_as(&other.commit_id)
            && self.divergent == other.divergent && self.immutable == other.immutable
    }
}

/// The text that could not be read as a head.
#[derive(Debug)]
pub struct HeadParseError(pub String);

impl HeadParseError {
    /// The message shown for this error: `Head parse error: <text>`.
    pub fn message(&self) -> (r: String)
        ensures
            r@ == "Head parse error: "@ + self.0@,
    {
        let mut s = "Head parse error: ".to_owned();
        s.append(self.0.as_str());
        s
    }
}

// A head is printed by jj with the template
// `"[" ++ change_id ++ "|" ++ commit_id ++ "|" ++ divergent ++ "|" ++ immutable ++ "]"`
// and read back as follows. A head starts at a `[`; on the same line (up to
// the next '\n') the last `]` closes it, and the last three `|` between the
// `[` and that `]` separate the four fields. The first `[` at which this
// succeeds is the one that is read.

/// The end of the line that position `s` of `t` is on.
pub open spec fn head_line_end(t: Seq<char>, s: int) -> int {
    find_from(t, '\n', s)
}

/// The `]` that closes a head opened at `s`, or `s` if there is none.
pub open spec fn head_close(t: Seq<char>, s: int) -> int {
    rfind_in(t, ']', s + 1, head_line_end(t, s))
}

/// The `|` before the `immutable` field.
pub open spec fn head_pipe3(t: Seq<char>, s: int) -> int {
    rfind_in(t, '|', s + 1, head_close(t, s))
}

/// The `|` before the `divergent` field.
pub open spec fn head_pipe2(t: Seq<char>, s: int) -> int {
    rfind_in(t, '|', s + 1, head_pipe3(t, s))
}

/// The `|` before the commit id.
pub open spec fn head_pipe1(t: Seq<char>, s: int) -> int {
    rfind_in(t, '|', s + 1, head_pipe2(t, s))
}

/// A head can be read from `t` starting at the `[` at position `s`.
pub open spec fn head_matches_at(t: Seq<char>, s: int) -> bool {
    &&& 0 <= s < t.len()
    &&& t[s] == '['
    &&& head_pipe1(t, s) > s
}

/// `s` is the first position at which a head can be read from `t`.
pub open spec fn is_head_start(t: Seq<char>, s: int) -> bool {
    &&& head_matches_at(t, s)
    &&& forall|j: int| 0 <= j < s ==> !head_matches_at(t, j)
}

/// The head read from `t` starting at `s`.
pub open spec fn head_read_at(t: Seq<char>, s: int) -> (Seq<char>, Seq<char>, bool, bool) {
    let p1 = head_pipe1(t, s);
    let p2 = head_pipe2(t, s);
    let p3 = head_pipe3(t, s);
    let e = head_close(t, s);
    (
        t.subrange(s + 1, p1),
        t.subrange(p1 + 1, p2),
        t.subrange(p2 + 1, p3) == true_word(),
        t.subrange(p3 + 1, e) == true_word(),
    )
}

/// The head that `t` holds, if any: the fields of the first readable head.
pub open spec fn parsed_head(t: Seq<char>) -> Option<(Seq<char>, Seq<char>, bool, bool)> {
    if exists|s: int| is_head_start(t, s) {
        Some(head_read_at(t, choose|s: int| is_head_start(t, s)))
    } else {
        None
    }
}

proof fn lemma_head_positions(t: Seq<char>, s: int)
    requires
        0 <= s < t.len(),
        t[s] == '[',
    ensures
        s < head_line_end(t, s) <= t.len(),
        s <= head_close(t, s) < head_line_end(t, s),
        s <= head_pipe3(t, s) <= head_close(t, s),
        s <= head_pipe2(t, s) <= head_pipe3(t, s),
        s <= head_pipe1(t, s) <= head_pipe2(t, s),
        head_pipe1(t, s) > s ==> s < head_pipe1(t, s) < head_pipe2(t, s) < head_pipe3(t, s)
            < head_close(t, s),
{
    lemma_find_from(t, '\n', s);
    let le = head_line_end(t, s);
    lemma_rfind_in(t, ']', s + 1, le);
    let e = head_close(t, s);
    lemma_rfind_in(t, '|', s + 1, e);
    let p3 = head_pipe3(t, s);
    lemma_rfind_in(t, '|', s + 1, p3);
    let p2 = head_pipe2(t, s);
    lemma_rfind_in(t, '|', s + 1, p2);
}

proof fn lemma_head_start_unique(t: Seq<char>, a: int, b: int)
    requires
        is_head_start(t, a),
        is_head_start(t, b),
    ensures
        a == b,
{
    if a < b {
        assert(!head_matches_at(t, a));
    } else if b < a {
        assert(!head_matches_at(t, b));
    }
}

/// The positions `(p1, p2, p3, e)` of a head read from `v` at `s`, if one can be.
fn head_match_at(v: &Vec<char>, s: usize) -> (r: Option<(usize, usize, usize, usize)>)
    requires
        s < v@.len(),
    ensures
        r is Some <==> head_matches_at(v@, s as int),
        r matches Some(p) ==> p.0 == head_pipe1(v@, s as int) && p.1 == head_pipe2(v@, s as int)
            && p.2 == head_pipe3(v@, s as int) && p.3 == head_close(v@, s as int),
{
    if v[s] != '[' {
        return None;
    }
    proof {
        lemma_head_positions(v@, s as int);
    }
    let le = find_char_from(v, '\n', s);
    let e = match rfind_char_in(v, ']', s + 1, le) {
        Some(e) => e,
        None => return None,
    };
    let p3 = match rfind_char_in(v, '|', s + 1, e) {
        Some(p) => p,
        None => return None,
    };
    let p2 = match rfind_char_in(v, '|', s + 1, p3) {
        Some(p) => p,
        None => return None,
    };
    let p1 = match rfind_char_in(v, '|', s + 1, p2) {
        Some(p) => p,
        None => return None,
    };
    Some((p1, p2, p3, e))
}

/// Parse a head printed with the head template.
pub fn parse_head(text: &str) -> (r: Result<Head, HeadParseError>)
    ensures
        r matches Ok(h) ==> parsed_head(text@) == Some(h@),
        r matches Err(e) ==> parsed_head(text@) is None && e.0@ == text@,
{
    parse_head_chars(&chars_of(text))
}

/// Parse a head printed with the head template, from its characters.
pub fn parse_head_chars(v: &Vec<char>) -> (r: Result<Head, HeadParseError>)
    ensures
        r matches Ok(h) ==> parsed_head(v@) == Some(h@),
        r matches Err(e) ==> parsed_head(v@) is None && e.0@ == v@,
{
    let ghost text = v@;
    let n = v.len();
    let mut s: usize = 0;
    while s < n
        invariant
            s <= n == v@.len(),
            v@ == text,
            forall|j: int| 0 <= j < s ==> !head_matches_at(v@, j),
        decreases n - s,
    {
        match head_match_at(v, s) {
            Some((p1, p2, p3, e)) => {
                proof {
                    lemma_head_positions(v@, s as int);
                    assert(is_head_start(v@, s as int));
                    let c = choose|x: int| is_head_start(v@, x);
                    lemma_head_start_unique(v@, c, s as int);
                }
                let head = Head {
                    change_id: ChangeId(substring(v, s + 1, p1)),
                    commit_id: CommitId(substring(v, p1 + 1, p2)),
                    divergent: is_true_word(v, p2 + 1, p3),
                    immutable: is_true_word(v, p3 + 1, e),
                };
                return Ok(head);
            },
            None => {},
        }
        s = s + 1;
    }
    proof {
        assert forall|x: int| !is_head_start(v@, x) by {
            if 0 <= x < n {
                assert(!head_matches_at(v@, x));
            }
        }
    }
    Err(HeadParseError(string_from_chars(v.as_slice())))
}


/// What the head template prints for a change with these fields.
pub open spec fn head_template_text(
    change_id: Seq<char>,
    commit_id: Seq<char>,
    divergent: bool,
    immutable: bool,
) -> Seq<char> {
    seq!['['] + change_id + seq!['|'] + commit_id + seq!['|'] + bool_word(divergent) + seq!['|']
        + bool_word(immutable) + seq![']']
}

/// Reading back what the head template printed gives the head that was
/// printed, for ids on one line and a commit id without `|` (jj's ids are
/// letters and digits).
pub proof fn lemma_head_template_roundtrip(
    change_id: Seq<char>,
    commit_id: Seq<char>,
    divergent: bool,
    immutable: bool,
)
    requires
        !change_id.contains('\n'),
        !commit_id.contains('\n'),
        !commit_id.contains('|'),
    ensures
        parsed_head(head_template_text(change_id, commit_id, divergent, immutable)) == Some(
            (change_id, commit_id, divergent, immutable),
        ),
{
    let t = head_template_text(change_id, commit_id, divergent, immutable);
    let wd = bool_word(divergent);
    let wi = bool_word(immutable);
    let lc = change_id.len() as int;
    let lm = commit_id.len() as int;
    let p1 = 1 + lc;
    let p2 = p1 + 1 + lm;
    let p3 = p2 + 1 + wd.len();
    let e = p3 + 1 + wi.len();
    assert(true_word().len() == 4 && false_word().len() == 5);
    assert(forall|k: int| 0 <= k < true_word().len() ==> true_word()[k] != '|' && true_word()[k] != '\n' && true_word()[k] != ']');
    assert(forall|k: int| 0 <= k < false_word().len() ==> false_word()[k] != '|' && false_word()[k] != '\n' && false_word()[k] != ']');
    assert(t.len() == e + 1);
    assert(t[0] == '[');
    assert(t[p1] == '|');
    assert(t[p2] == '|');
    assert(t[p3] == '|');
    assert(t[e] == ']');
    assert forall|j: int| 0 < j < p1 implies t[j] == change_id[j - 1] by {}
    assert forall|j: int| p1 < j < p2 implies t[j] == commit_id[j - p1 - 1] by {}
    assert forall|j: int| p2 < j < p3 implies t[j] == wd[j - p2 - 1] by {}
    assert forall|j: int| p3 < j < e implies t[j] == wi[j - p3 - 1] by {}
    assert forall|j: int| 0 <= j < t.len() implies t[j] != '\n' by {
        if 0 < j < p1 {
            assert(change_id[j - 1] != '\n');
        } else if p1 < j < p2 {
            assert(commit_id[j - p1 - 1] != '\n');
        }
    }
    lemma_find_from_none(t, '\n', 0);
    assert(head_line_end(t, 0) == t.len());
    lemma_rfind_in_is(t, ']', 1, t.len() as int, e);
    assert(head_close(t, 0) == e);
    lemma_rfind_in_is(t, '|', 1, e, p3);
    assert(head_pipe3(t, 0) == p3);
    lemma_rfind_in_is(t, '|', 1, p3, p2);
    assert(head_pipe2(t, 0) == p2);
    assert forall|j: int| p1 < j < p2 implies t[j] != '|' by {
        assert(commit_id[j - p1 - 1] != '|');
    }
    lemma_rfind_in_is(t, '|', 1, p2, p1);
    assert(head_pipe1(t, 0) == p1);
    assert(is_head_start(t, 0));
    let c = choose|x: int| is_head_start(t, x);
    lemma_head_start_unique(t, c, 0);
    assert(t.subrange(1, p1) =~= change_id);
    assert(t.subrange(p1 + 1, p2) =~= commit_id);
    assert(t.subrange(p2 + 1, p3) =~= wd);
    assert(t.subrange(p3 + 1, e) =~= wi);
    assert((wd == true_word()) == divergent) by {
        if !divergent {
            assert(wd.len() != true_word().len());
        }
    }
    assert((wi == true_word()) == immutable) by {
        if !immutable {
            assert(wi.len() != true_word().len());
        }
    }
}


/// What the log shows: the graph as jj draws it, the head each graph line
/// belongs to, and the heads in the order they first appear.
#[derive(Clone, Debug)]
pub struct LogOutput {
    pub graph: String,
    /// Maps graph line -> heads
    pub graph_heads: Vec<Option<Head>>,
    pub heads: Vec<Head>,
}

/// The views of optional heads.
pub open spec fn opt_head_views(v: Seq<Option<Head>>) -> Seq<Option<(Seq<char>, Seq<char>, bool, bool)>> {
    v.map_values(|o: Option<Head>| match o {
        Some(h) => Some(h@),
        None => None,
    })
}

/// The views of heads.
pub open spec fn head_views(v: Seq<Head>) -> Seq<(Seq<char>, Seq<char>, bool, bool)> {
    v.map_values(|h: Head| h@)
}

/// The values that are present, in order.
pub open spec fn somes<T>(s: Seq<Option<T>>) -> Seq<T>
    decreases s.len(),
{
    if s.len() == 0 {
        seq![]
    } else {
        match s.last() {
            Some(x) => somes(s.drop_last()).push(x),
            None => somes(s.drop_last()),
        }
    }
}

/// The head of each line of the head output (`None` where a line holds none).
pub open spec fn line_heads(output: Seq<char>) -> Seq<Option<(Seq<char>, Seq<char>, bool, bool)>> {
    lines_of(output).map_values(|l: Seq<char>| parsed_head(l))
}

/// Reads the output of the log's head template: one optional head per line,
/// and the heads that occur, each once, in the order they first appear.
pub fn parse_log_output(graph: String, heads_output: &str) -> (r: LogOutput)
    ensures
        r.graph == graph,
        opt_head_views(r.graph_heads@) == line_heads(heads_output@),
        head_views(r.heads@) == somes(line_heads(heads_output@)).remove_duplicates(seq![]),
        forall|i: int| 0 <= i < r.graph_heads@.len() && (#[trigger] r.graph_heads@[i]) is Some
            ==> head_views(r.heads@).contains(r.graph_heads@[i]->0@),
{
    let lines = split_lines(&chars_of(heads_output));
    let ghost lv = lines@.map_values(|l: Vec<char>| l@);
    let ghost all = line_heads(heads_output@);
    let mut graph_heads: Vec<Option<Head>> = Vec::new();
    let mut heads: Vec<Head> = Vec::new();
    let mut i: usize = 0;
    while i < lines.len()
        invariant
            i <= lines@.len(),
            lv == lines@.map_values(|l: Vec<char>| l@),
            lv == lines_of(heads_output@),
            all == line_heads(heads_output@),
            opt_head_views(graph_heads@) == all.take(i as int),
            head_views(heads@) == somes(all.take(i as int)).remove_duplicates(seq![]),
        decreases lines@.len() - i,
    {
        let parsed = parse_head_chars(&lines[i]);
        let ghost prev_g = opt_head_views(graph_heads@);
        let ghost prev_h = head_views(heads@);
        proof {
            assert(all.take(i + 1).drop_last() =~= all.take(i as int));
            assert(all[i as int] == parsed_head(lv[i as int]));
        }
        match parsed {
            Ok(h) => {
                let mut seen = false;
                let mut k: usize = 0;
                while k < heads.len()
                    invariant
                        k <= heads@.len(),
                        prev_h == head_views(heads@),
                        seen == exists|j: int| 0 <= j < k && heads@[j]@ == h@,
                    decreases heads@.len() - k,
                {
                    if heads[k].same_as(&h) {
                        seen = true;
                    }
                    k = k + 1;
                }
                let h2 = h.duplicate();
                graph_heads.push(Some(h2));
                proof {
                    let flat = somes(all.take(i as int));
                    assert(somes(all.take(i + 1)) == flat.push(h@));
                    flat.lemma_remove_duplicates_append(h@, seq![]);
                    flat.lemma_remove_duplicates_properties(seq![]);
                    assert(flat + seq![h@] =~= flat.push(h@));
                    assert(flat + Seq::<(Seq<char>, Seq<char>, bool, bool)>::empty() =~= flat);
                    assert(seen == prev_h.contains(h@)) by {
                        if seen {
                            let j = choose|j: int| 0 <= j < k && heads@[j]@ == h@;
                            assert(prev_h[j] == h@);
                        }
                        if prev_h.contains(h@) {
                            let j = choose|j: int| 0 <= j < prev_h.len() && prev_h[j] == h@;
                            assert(heads@[j]@ == h@);
                        }
                    }
                    assert(opt_head_views(graph_heads@) =~= prev_g.push(Some(h@)));
                }
                if !seen {
                    heads.push(h);
                    proof {
                        assert(head_views(heads@) =~= prev_h + seq![h@]);
                    }
                }
            },
            Err(_) => {
                graph_heads.push(None);
                proof {
                    assert(opt_head_views(graph_heads@) =~= prev_g.push(None));
                    assert(somes(all.take(i + 1)) == somes(all.take(i as int)));
                }
            },
        }
        i = i + 1;
    }
    proof {
        assert(all.take(i as int) =~= all);
        let flat = somes(all);
        flat.lemma_remove_duplicates_properties(seq![]);
        assert forall|j: int| 0 <= j < graph_heads@.len() && (#[trigger] graph_heads@[j]) is Some
            implies head_views(heads@).contains(graph_heads@[j]->0@) by {
            lemma_somes_contains(all, j);
            assert(opt_head_views(graph_heads@)[j] == all[j]);
            assert(flat + Seq::<(Seq<char>, Seq<char>, bool, bool)>::empty() =~= flat);
        }
    }
    LogOutput { graph, graph_heads, heads }
}

proof fn lemma_somes_contains<T>(s: Seq<Option<T>>, j: int)
    requires
        0 <= j < s.len(),
        s[j] is Some,
    ensures
        somes(s).contains(s[j]->0),
    decreases s.len(),
{
    if j == s.len() - 1 {
        assert(somes(s)[somes(s).len() - 1] == s[j]->0);
    } else {
        lemma_somes_contains(s.drop_last(), j);
        let k = choose|k: int| 0 <= k < somes(s.drop_last()).len() && somes(s.drop_last())[k] == s[j]->0;
        match s.last() {
            Some(x) => {
                assert(somes(s)[k] == s[j]->0);
            },
            None => {},
        }
    }
}

/// The template that prints a head: `[change_id|commit_id|divergent|immutable]`.
pub const HEAD_TEMPLATE: &'static str = r#""[" ++ change_id ++ "|" ++ commit_id ++ "|" ++ divergent ++ "|" ++ immutable ++ "]""#;

/// `-r <revset>` when a revset is given.
pub open spec fn revset_args(revset: Option<String>) -> Seq<Seq<char>> {
    match revset {
        Some(r) => seq!["-r"@, r@],
        None => seq![],
    }
}

fn push_revset(args: &mut Vec<String>, revset: &Option<String>)
    ensures
        views(final(args)@) == views(old(args)@) + revset_args(*revset),
{
    let ghost before = views(args@);
    match revset {
        Some(r) => {
            args.push(owned("-r"));
            args.push(r.clone());
        },
        None => {},
    }
    assert(views(args@) =~= before + revset_args(*revset));
}

/// The arguments of `jj log` that draws the graph (two lines per change).
pub fn log_graph_args(revset: &Option<String>) -> (r: Vec<String>)
    ensures
        views(r@) == seq!["log"@, "--template"@, "builtin_log_compact"@] + revset_args(*revset),
{
    let mut r: Vec<String> = Vec::new();
    r.push(owned("log"));
    r.push(owned("--template"));
    r.push(owned("builtin_log_compact"));
    assert(views(r@) =~= seq!["log"@, "--template"@, "builtin_log_compact"@]);
    push_revset(&mut r, revset);
    r
}

/// The template that prints the head of a change on both of its graph lines.
pub open spec fn log_heads_template() -> Seq<char> {
    HEAD_TEMPLATE@ + " ++ \" \" ++ bookmarks ++\"\\n\" ++ "@ + HEAD_TEMPLATE@
}

/// The arguments of `jj log` that prints each graph line's head.
pub fn log_heads_args(revset: &Option<String>) -> (r: Vec<String>)
    ensures
        views(r@) == seq!["log"@, "--template"@, log_heads_template()] + revset_args(*revset),
{
    let mut template = owned(HEAD_TEMPLATE);
    template.append(" ++ \" \" ++ bookmarks ++\"\\n\" ++ ");
    template.append(HEAD_TEMPLATE);
    let mut r: Vec<String> = Vec::new();
    r.push(owned("log"));
    r.push(owned("--template"));
    r.push(template);
    assert(views(r@) =~= seq!["log"@, "--template"@, log_heads_template()]);
    push_revset(&mut r, revset);
    r
}

/// The head template followed by a line break.
pub open spec fn head_line_template() -> Seq<char> {
    HEAD_TEMPLATE@ + " ++ \"\\n\""@
}

fn head_line_template_string() -> (r: String)
    ensures
        r@ == head_line_template(),
{
    let mut t = owned(HEAD_TEMPLATE);
    t.append(" ++ \"\\n\"");
    t
}

/// The arguments of `jj show` for a commit.
pub fn commit_show_args(commit_id: &CommitId, diff_format: &DiffFormat, ignore_working_copy: bool) -> (r: Vec<String>)
    ensures
        views(r@) == seq!["show"@, commit_id@] + diff_format_args(*diff_format) + if ignore_working_copy {
            seq!["--ignore-working-copy"@]
        } else {
            seq![]
        },
{
    let mut r: Vec<String> = Vec::new();
    r.push(owned("show"));
    r.push(owned(commit_id.as_str()));
    let mut d = diff_format.get_args();
    r.append(&mut d);
    if ignore_working_copy {
        r.push(owned("--ignore-working-copy"));
    }
    proof {
        assert(views(r@) =~= seq!["show"@, commit_id@] + diff_format_args(*diff_format) + if ignore_working_copy {
            seq!["--ignore-working-copy"@]
        } else {
            seq![]
        });
    }
    r
}

/// The arguments of `jj log` that print the head of `@`.
pub fn current_head_args() -> (r: Vec<String>)
    ensures
        views(r@) == seq!["log"@, "--no-graph"@, "--template"@, head_line_template(), "-r"@, "@"@, "--limit"@, "1"@],
{
    let mut r: Vec<String> = Vec::new();
    r.push(owned("log"));
    r.push(owned("--no-graph"));
    r.push(owned("--template"));
    r.push(head_line_template_string());
    r.push(owned("-r"));
    r.push(owned("@"));
    r.push(owned("--limit"));
    r.push(owned("1"));
    assert(views(r@) =~= seq!["log"@, "--no-graph"@, "--template"@, head_line_template(), "-r"@, "@"@, "--limit"@, "1"@]);
    r
}

/// The arguments that print the change a bookmark points to.
pub fn bookmark_head_args(bookmark: &Bookmark) -> (r: Vec<String>)
    ensures
        views(r@) == seq!["log"@, "--no-graph"@, "--template"@, head_line_template(), "-r"@, ref_text(bookmark@), "--limit"@, "1"@],
{
    let mut r: Vec<String> = Vec::new();
    r.push(owned("log"));
    r.push(owned("--no-graph"));
    r.push(owned("--template"));
    r.push(head_line_template_string());
    r.push(owned("-r"));
    r.push(bookmark.to_string());
    r.push(owned("--limit"));
    r.push(owned("1"));
    assert(views(r@) =~= seq!["log"@, "--no-graph"@, "--template"@, head_line_template(), "-r"@, ref_text(bookmark@), "--limit"@, "1"@]);
    r
}

/// The arguments of `jj log` that print every head of a change.
pub fn head_latest_args(change_id: &ChangeId) -> (r: Vec<String>)
    ensures
        views(r@) == seq!["log"@, "--no-graph"@, "-r"@, "change_id("@ + change_id@ + ")"@, "--template"@, head_line_template()],
{
    let mut rev = owned("change_id(");
    rev.append(change_id.as_str());
    rev.append(")");
    let mut r: Vec<String> = Vec::new();
    r.push(owned("log"));
    r.push(owned("--no-graph"));
    r.push(owned("-r"));
    r.push(rev);
    r.push(owned("--template"));
    r.push(head_line_template_string());
    assert(views(r@) =~= seq!["log"@, "--no-graph"@, "-r"@, "change_id("@ + change_id@ + ")"@, "--template"@, head_line_template()]);
    r
}

/// The arguments of `jj obslog` that print the change ids a commit evolved from.
pub fn obslog_args(commit_id: &CommitId) -> (r: Vec<String>)
    ensures
        views(r@) == seq!["obslog"@, "--no-graph"@, "--template"@, "commit.change_id() ++ \"\\n\""@, "-r"@, commit_id@],
{
    let mut r: Vec<String> = Vec::new();
    r.push(owned("obslog"));
    r.push(owned("--no-graph"));
    r.push(owned("--template"));
    r.push(owned("commit.change_id() ++ \"\\n\""));
    r.push(owned("-r"));
    r.push(owned(commit_id.as_str()));
    assert(views(r@) =~= seq!["obslog"@, "--no-graph"@, "--template"@, "commit.change_id() ++ \"\\n\""@, "-r"@, commit_id@]);
    r
}

/// The arguments of `jj log` that print the head of a commit's parent.
pub fn commit_parent_args(commit_id: &CommitId) -> (r: Vec<String>)
    ensures
        views(r@) == seq!["log"@, "--no-graph"@, "--template"@, head_line_template(), "-r"@, commit_id@ + "-"@, "--limit"@, "1"@],
{
    let mut rev = owned(commit_id.as_str());
    rev.append("-");
    let mut r: Vec<String> = Vec::new();
    r.push(owned("log"));
    r.push(owned("--no-graph"));
    r.push(owned("--template"));
    r.push(head_line_template_string());
    r.push(owned("-r"));
    r.push(rev);
    r.push(owned("--limit"));
    r.push(owned("1"));
    assert(views(r@) =~= seq!["log"@, "--no-graph"@, "--template"@, head_line_template(), "-r"@, commit_id@ + "-"@, "--limit"@, "1"@]);
    r
}

/// The arguments of `jj log` that print a revision with a one-field template.
fn one_field_args(template: &str, revision: &str) -> (r: Vec<String>)
    ensures
        views(r@) == seq!["log"@, "--no-graph"@, "--template"@, template@, "-r"@, revision@, "--limit"@, "1"@],
{
    let mut r: Vec<String> = Vec::new();
    r.push(owned("log"));
    r.push(owned("--no-graph"));
    r.push(owned("--template"));
    r.push(owned(template));
    r.push(owned("-r"));
    r.push(owned(revision));
    r.push(owned("--limit"));
    r.push(owned("1"));
    assert(views(r@) =~= seq!["log"@, "--no-graph"@, "--template"@, template@, "-r"@, revision@, "--limit"@, "1"@]);
    r
}

/// The arguments of `jj log` that print a commit's description.
pub fn commit_description_args(commit_id: &CommitId) -> (r: Vec<String>)
    ensures
        views(r@) == seq!["log"@, "--no-graph"@, "--template"@, "description"@, "-r"@, commit_id@, "--limit"@, "1"@],
{
    one_field_args("description", commit_id.as_str())
}

/// The arguments of `jj log` that print whether a revision is immutable.
pub fn revision_immutable_args(revision: &str) -> (r: Vec<String>)
    ensures
        views(r@) == seq!["log"@, "--no-graph"@, "--template"@, "immutable"@, "-r"@, revision@, "--limit"@, "1"@],
{
    one_field_args("immutable", revision)
}

/// Whether the output of the immutability query says `true`.
pub fn is_immutable_output(output: String) -> (r: bool)
    ensures
        r == (end_line_removed(output@) == true_word()),
{
    let t = output.remove_end_line();
    let v = chars_of(t.as_str());
    assert(v@.subrange(0, v@.len() as int) =~= v@);
    is_true_word(&v, 0, v.len())
}

/// What the latest version of a head is, judging from the heads that now
/// carry its change id.
#[derive(Debug)]
pub enum LatestHeadStep {
    /// No head carries the change id: start again from the current head.
    UseCurrentHead,
    /// A line could not be read as a head.
    ParseFailed(HeadParseError),
    /// The head still exists as it was.
    Unchanged(Head),
    /// The head changed; one of these is its new version.
    Candidates(Vec<Head>),
}

/// The heads of all lines, or the first line that holds none.
pub open spec fn all_line_heads(lines: Seq<Seq<char>>) -> Result<Seq<(Seq<char>, Seq<char>, bool, bool)>, Seq<char>>
    decreases lines.len(),
{
    if lines.len() == 0 {
        Ok(seq![])
    } else {
        match parsed_head(lines[0]) {
            None => Err(lines[0]),
            Some(h) => match all_line_heads(lines.skip(1)) {
                Ok(rest) => Ok(seq![h] + rest),
                Err(e) => Err(e),
            },
        }
    }
}

/// Judges the output of the `head_latest_args` query for `head`.
pub fn latest_head_step(head: &Head, output: &str) -> (r: LatestHeadStep)
    ensures
        output@.len() == 0 ==> r is UseCurrentHead,
        output@.len() > 0 ==> match all_line_heads(lines_of(output@)) {
            Err(l) => r matches LatestHeadStep::ParseFailed(e) && e.0@ == l,
            Ok(hs) => if hs.contains(head@) {
                r matches LatestHeadStep::Unchanged(h) && h@ == head@
            } else {
                r matches LatestHeadStep::Candidates(c) && head_views(c@) == hs
            },
        },
{
    let v = chars_of(output);
    if v.len() == 0 {
        return LatestHeadStep::UseCurrentHead;
    }
    let lines = split_lines(&v);
    let ghost lv = lines@.map_values(|l: Vec<char>| l@);
    let mut heads: Vec<Head> = Vec::new();
    let mut i: usize = 0;
    proof {
        assert(lv.skip(0) =~= lv);
        match all_line_heads(lv) {
            Ok(rest) => {
                assert(head_views(heads@) + rest =~= rest);
            },
            Err(_) => {},
        }
    }
    while i < lines.len()
        invariant
            i <= lines@.len(),
            lv == lines@.map_values(|l: Vec<char>| l@),
            lv == lines_of(output@),
            all_line_heads(lv) == match all_line_heads(lv.skip(i as int)) {
                Ok(rest) => Ok(head_views(heads@) + rest),
                Err(e) => Err(e),
            },
        decreases lines@.len() - i,
    {
        proof {
            assert(lv.skip(i as int)[0] == lv[i as int]);
            assert(lv.skip(i as int).skip(1) =~= lv.skip(i + 1));
        }
        match parse_head_chars(&lines[i]) {
            Ok(h) => {
                let ghost prev = head_views(heads@);
                heads.push(h);
                proof {
                    assert(head_views(heads@) =~= prev + seq![h@]);
                    match all_line_heads(lv.skip(i + 1)) {
                        Ok(rest) => {
                            assert(prev + (seq![h@] + rest) =~= head_views(heads@) + rest);
                        },
                        Err(_) => {},
                    }
                }
            },
            Err(e) => {
                return LatestHeadStep::ParseFailed(e);
            },
        }
        i = i + 1;
    }
    proof {
        assert(lv.skip(i as int) =~= Seq::<Seq<char>>::empty());
        assert(head_views(heads@) + Seq::<(Seq<char>, Seq<char>, bool, bool)>::empty() =~= head_views(heads@));
    }
    let mut k: usize = 0;
    while k < heads.len()
        invariant
            k <= heads@.len(),
            v@ == output@,
            v@.len() > 0,
            all_line_heads(lines_of(output@)) == Ok::<Seq<(Seq<char>, Seq<char>, bool, bool)>, Seq<char>>(head_views(heads@)),
            forall|j: int| 0 <= j < k ==> heads@[j]@ != head@,
        decreases heads@.len() - k,
    {
        if heads[k].same_as(head) {
            assert(head_views(heads@)[k as int] == head@);
            return LatestHeadStep::Unchanged(heads[k].duplicate());
        }
        k = k + 1;
    }
    proof {
        if head_views(heads@).contains(head@) {
            let j = choose|j: int| 0 <= j < heads@.len() && head_views(heads@)[j] == head@;
            assert(heads@[j]@ == head@);
        }
    }
    LatestHeadStep::Candidates(heads)
}

/// Whether the output of the `obslog_args` query names `change_id` on a line
/// of its own.
pub fn obslog_mentions(output: &str, change_id: &ChangeId) -> (r: bool)
    ensures
        r == lines_of(output@).contains(change_id@),
{
    let lines = split_lines(&chars_of(output));
    let ghost lv = lines@.map_values(|l: Vec<char>| l@);
    let target = chars_of(change_id.as_str());
    let mut i: usize = 0;
    while i < lines.len()
        invariant
            i <= lines@.len(),
            lv == lines@.map_values(|l: Vec<char>| l@),
            lv == lines_of(output@),
            target@ == change_id@,
            forall|j: int| 0 <= j < i ==> lv[j] != change_id@,
        decreases lines@.len() - i,
    {
        if crate::strings::chars_eq(&lines[i], &target) {
            assert(lv[i as int] == change_id@);
            return true;
        }
        i = i + 1;
    }
    false
}

} // verus!
