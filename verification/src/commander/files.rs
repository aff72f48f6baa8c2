//! jj diff: the files a change touches, its conflicts, and the arguments
//! that show one file's diff.
use vstd::prelude::*;

use crate::commander::ids::CommitId;
use crate::commander::log::Head;
use crate::commander::{diff_format_args, CommandError};
use crate::env::{Color, DiffFormat};
use crate::strings::{
    chars_of, find_char_from, find_from, lemma_find_from, lemma_find_from_is, lines_of, owned, split_lines,
    string_from_chars, substring, views,
};

verus! {

/// How a file changed.
#[derive(Clone, Copy, Debug, PartialEq, Eq, Structural)]
pub enum DiffType {
    Added,
    Modified,
    Deleted,
    Renamed,
}

/// The change type that a summary letter stands for.
pub open spec fn diff_type_of(s: Seq<char>) -> Option<DiffType> {
    if s == seq!['A'] {
        Some(DiffType::Added)
    } else if s == seq!['M'] {
        Some(DiffType::Modified)
    } else if s == seq!['D'] {
        Some(DiffType::Deleted)
    } else if s == seq!['R'] {
        Some(DiffType::Renamed)
    } else {
        None
    }
}

fn diff_type_of_char(c: char) -> (r: Option<DiffType>)
    ensures
        r == diff_type_of(seq![c]),
{
    if c == 'A' {
        Some(DiffType::Added)
    } else if c == 'M' {
        Some(DiffType::Modified)
    } else if c == 'D' {
        Some(DiffType::Deleted)
    } else if c == 'R' {
        Some(DiffType::Renamed)
    } else {
        proof {
            assert(seq![c] != seq!['A']) by { assert(seq![c][0] != seq!['A'][0]); }
            assert(seq![c] != seq!['M']) by { assert(seq![c][0] != seq!['M'][0]); }
            assert(seq![c] != seq!['D']) by { assert(seq![c][0] != seq!['D'][0]); }
            assert(seq![c] != seq!['R']) by { assert(seq![c][0] != seq!['R'][0]); }
        }
        None
    }
}

impl DiffType {
    /// The change type that a summary letter stands for: `A`, `M`, `D` or `R`.
    pub fn parse(value: &str) -> (r: Option<Self>)
        ensures
            r == diff_type_of(value@),
    {
        let v = chars_of(value);
        if v.len() == 1 {
            assert(v@ =~= seq![v@[0]]);
            diff_type_of_char(v[0])
        } else {
            proof {
                assert(v@ != seq!['A'] && v@ != seq!['M'] && v@ != seq!['D'] && v@ != seq!['R']) by {
                    assert(seq!['A'].len() == 1);
                }
            }
            None
        }
    }

    /// The color a change type is shown in.
    pub fn color(&self) -> (r: Color)
        ensures
            r == match *self {
                DiffType::Added => Color::Green,
                DiffType::Modified => Color::Cyan,
                DiffType::Renamed => Color::Cyan,
                DiffType::Deleted => Color::Red,
            },
    {
        match self {
            DiffType::Added => Color::Green,
            DiffType::Modified => Color::Cyan,
            DiffType::Renamed => Color::Cyan,
            DiffType::Deleted => Color::Red,
        }
    }
}

/// A line of a change's file summary: the line itself, the path and the
/// change type, when they can be read from it.
#[derive(Clone, Debug, PartialEq)]
pub struct File {
    pub line: String,
    pub path: Option<String>,
    pub diff_type: Option<DiffType>,
}

impl View for File {
    type V = (Seq<char>, Option<Seq<char>>, Option<DiffType>);

    open spec fn view(&self) -> (Seq<char>, Option<Seq<char>>, Option<DiffType>) {
        (self.line@, match self.path { Some(p) => Some(p@), None => None }, self.diff_type)
    }
}

// A summary line reads `<letter> <path>`, like `A README.md`: the first space
// that follows a character separates that character from the path.

/// The file that a summary line describes.
pub open spec fn file_of_line(l: Seq<char>) -> (Seq<char>, Option<Seq<char>>, Option<DiffType>) {
    let i = find_from(l, ' ', 1);
    if i < l.len() {
        (l, Some(l.subrange(i + 1, l.len() as int)), diff_type_of(seq![l[i - 1]]))
    } else {
        (l, None, None)
    }
}

/// Reads one summary line.
fn file_from_line(v: &Vec<char>) -> (r: File)
    ensures
        r@ == file_of_line(v@),
{
    let line = string_from_chars(v.as_slice());
    if v.len() < 1 {
        return File { line, path: None, diff_type: None };
    }
    let i = find_char_from(v, ' ', 1);
    proof {
        lemma_find_from(v@, ' ', 1);
    }
    if i < v.len() {
        File { line, path: Some(substring(v, i + 1, v.len())), diff_type: diff_type_of_char(v[i - 1]) }
    } else {
        File { line, path: None, diff_type: None }
    }
}

/// The views of a list of files.
pub open spec fn file_views(v: Seq<File>) -> Seq<(Seq<char>, Option<Seq<char>>, Option<DiffType>)> {
    v.map_values(|f: File| f@)
}

/// Reads the file summary of a change, one file per line.
pub fn parse_files(output: &str) -> (r: Vec<File>)
    ensures
        file_views(r@) == lines_of(output@).map_values(|l: Seq<char>| file_of_line(l)),
{
    let lines = split_lines(&chars_of(output));
    let ghost lv = lines@.map_values(|l: Vec<char>| l@);
    let mut r: Vec<File> = Vec::new();
    let mut i: usize = 0;
    while i < lines.len()
        invariant
            i <= lines@.len(),
            lv == lines@.map_values(|l: Vec<char>| l@),
            lv == lines_of(output@),
            file_views(r@) == lv.take(i as int).map_values(|l: Seq<char>| file_of_line(l)),
        decreases lines@.len() - i,
    {
        let f = file_from_line(&lines[i]);
        let ghost prev = file_views(r@);
        r.push(f);
        proof {
            assert(file_views(r@) =~= prev.push(f@));
            assert(lv.take(i + 1).map_values(|l: Seq<char>| file_of_line(l)) =~= lv.take(i as int).map_values(|l: Seq<char>| file_of_line(l)).push(file_of_line(lv[i as int])));
        }
        i = i + 1;
    }
    assert(lv.take(i as int) =~= lv);
    r
}

/// A conflicted file.
#[derive(Clone, Debug, PartialEq)]
pub struct Conflict {
    pub path: String,
}

/// Four spaces start at position `p` of `l`.
pub open spec fn four_spaces_at(l: Seq<char>, p: int) -> bool {
    0 <= p && p + 4 <= l.len() && l[p] == ' ' && l[p + 1] == ' ' && l[p + 2] == ' ' && l[p + 3] == ' '
}

// A line of `jj resolve --list` reads `<path>    <description>`: the path is
// what comes before the last run of four spaces.

/// The path of a conflict line, if the line has four spaces in a row.
pub open spec fn conflict_path_of_line(l: Seq<char>) -> Option<Seq<char>> {
    if exists|p: int| four_spaces_at(l, p) {
        let p = choose|p: int| four_spaces_at(l, p) && forall|q: int| p < q ==> !four_spaces_at(l, q);
        Some(l.take(p))
    } else {
        None
    }
}

fn conflict_from_line(v: &Vec<char>) -> (r: Option<Conflict>)
    ensures
        conflict_path_of_line(v@) == match r { Some(c) => Some(c.path@), None => None },
{
    let n = v.len();
    if n < 4 {
        return None;
    }
    let mut p: usize = n - 4;
    loop
        invariant
            p + 4 <= n == v@.len(),
            forall|q: int| p < q ==> !four_spaces_at(v@, q),
        decreases p,
    {
        if v[p] == ' ' && v[p + 1] == ' ' && v[p + 2] == ' ' && v[p + 3] == ' ' {
            proof {
                assert(four_spaces_at(v@, p as int));
                let c = choose|x: int| four_spaces_at(v@, x) && forall|q: int| x < q ==> !four_spaces_at(v@, q);
                assert(c == p) by {
                    if c < p { assert(!four_spaces_at(v@, p as int)); }
                    if c > p { assert(!four_spaces_at(v@, c)); }
                }
            }
            return Some(Conflict { path: substring(v, 0, p) });
        }
        if p == 0 {
            proof {
                assert forall|q: int| !four_spaces_at(v@, q) by {
                    if q == 0 {
                        assert(!four_spaces_at(v@, 0));
                    }
                }
            }
            return None;
        }
        p = p - 1;
    }
}

/// The conflict paths read from the lines, leaving out lines without one.
pub open spec fn conflicts_of_lines(lines: Seq<Seq<char>>) -> Seq<Seq<char>>
    decreases lines.len(),
{
    if lines.len() == 0 {
        seq![]
    } else {
        match conflict_path_of_line(lines.last()) {
            Some(p) => conflicts_of_lines(lines.drop_last()).push(p),
            None => conflicts_of_lines(lines.drop_last()),
        }
    }
}

/// The paths of a list of conflicts.
pub open spec fn conflict_paths(v: Seq<Conflict>) -> Seq<Seq<char>> {
    v.map_values(|c: Conflict| c.path@)
}

/// Reads the conflict list of a change, leaving out lines without a path.
pub fn parse_conflicts(output: &str) -> (r: Vec<Conflict>)
    ensures
        conflict_paths(r@) == conflicts_of_lines(lines_of(output@)),
{
    let lines = split_lines(&chars_of(output));
    let ghost lv = lines@.map_values(|l: Vec<char>| l@);
    let mut r: Vec<Conflict> = Vec::new();
    let mut i: usize = 0;
    while i < lines.len()
        invariant
            i <= lines@.len(),
            lv == lines@.map_values(|l: Vec<char>| l@),
            lv == lines_of(output@),
            conflict_paths(r@) == conflicts_of_lines(lv.take(i as int)),
        decreases lines@.len() - i,
    {
        proof {
            assert(lv.take(i + 1).drop_last() =~= lv.take(i as int));
            assert(lv.take(i + 1).last() == lv[i as int]);
        }
        match conflict_from_line(&lines[i]) {
            Some(c) => {
                let ghost prev = conflict_paths(r@);
                let ghost cp = c.path@;
                r.push(c);
                assert(conflict_paths(r@) =~= prev.push(cp));
            },
            None => {},
        }
        i = i + 1;
    }
    assert(lv.take(i as int) =~= lv);
    r
}

/// The conflicts of a change, from the outcome of `jj resolve --list`: jj
/// exits with status 2 when there are none.
pub fn conflicts_from_outcome(outcome: Result<String, CommandError>) -> (r: Result<Vec<Conflict>, CommandError>)
    ensures
        match outcome {
            Ok(out) => r matches Ok(c) && conflict_paths(c@) == conflicts_of_lines(lines_of(out@)),
            Err(CommandError::Status(_, Some(2))) => r matches Ok(c) && c@.len() == 0,
            Err(e) => r == Err::<Vec<Conflict>, CommandError>(e),
        },
{
    match outcome {
        Ok(out) => Ok(parse_conflicts(out.as_str())),
        Err(CommandError::Status(e, Some(2))) => Ok(Vec::new()),
        Err(e) => Err(e),
    }
}

/// The arguments of `jj diff` that summarize the files a change touches.
pub fn files_args(head: &Head) -> (r: Vec<String>)
    ensures
        views(r@) == seq!["diff"@, "-r"@, head.commit_id@, "--summary"@],
{
    let mut r: Vec<String> = Vec::new();
    r.push(owned("diff"));
    r.push(owned("-r"));
    r.push(owned(head.commit_id.as_str()));
    r.push(owned("--summary"));
    assert(views(r@) =~= seq!["diff"@, "-r"@, head.commit_id@, "--summary"@]);
    r
}

/// The arguments of `jj resolve --list` for a commit.
pub fn conflicts_args(commit_id: &CommitId) -> (r: Vec<String>)
    ensures
        views(r@) == seq!["resolve"@, "--list"@, "-r"@, commit_id@],
{
    let mut r: Vec<String> = Vec::new();
    r.push(owned("resolve"));
    r.push(owned("--list"));
    r.push(owned("-r"));
    r.push(owned(commit_id.as_str()));
    assert(views(r@) =~= seq!["resolve"@, "--list"@, "-r"@, commit_id@]);
    r
}

/// The first position at or after `from` where ` => ` starts, or `t.len()`.
pub open spec fn find_arrow_from(t: Seq<char>, from: int) -> int
    decreases t.len() - from,
{
    if from < 0 || from + 4 > t.len() {
        t.len() as int
    } else if t[from] == ' ' && t[from + 1] == '=' && t[from + 2] == '>' && t[from + 3] == ' ' {
        from
    } else {
        find_arrow_from(t, from + 1)
    }
}

// A renamed file's path reads `{old => new}`: after the first `{`, the first
// ` => ` that a `}` follows, up to the first such `}`.

/// The new path of a rename, if `path` reads like one.
pub open spec fn rename_target(path: Seq<char>) -> Option<Seq<char>> {
    let s = find_from(path, '{', 0);
    let a = find_arrow_from(path, s + 1);
    let e = find_from(path, '}', a + 4);
    if s < path.len() && a < path.len() && e < path.len() {
        Some(path.subrange(a + 4, e))
    } else {
        None
    }
}

proof fn lemma_find_arrow_from(t: Seq<char>, from: int)
    requires
        0 <= from,
    ensures
        find_arrow_from(t, from) < t.len() ==> from <= find_arrow_from(t, from) && find_arrow_from(t, from) + 4 <= t.len(),
    decreases t.len() - from,
{
    if from + 4 <= t.len() && !(t[from] == ' ' && t[from + 1] == '=' && t[from + 2] == '>' && t[from + 3] == ' ') {
        lemma_find_arrow_from(t, from + 1);
    }
}

fn rename_target_of(v: &Vec<char>) -> (r: Option<String>)
    ensures
        rename_target(v@) == match r { Some(t) => Some(t@), None => None },
{
    let n = v.len();
    let s = find_char_from(v, '{', 0);
    proof {
        lemma_find_from(v@, '{', 0);
    }
    if s >= n {
        return None;
    }
    let mut a: usize = s + 1;
    while a <= n && n - a >= 4 && !(v[a] == ' ' && v[a + 1] == '=' && v[a + 2] == '>' && v[a + 3] == ' ')
        invariant
            s + 1 <= a <= n,
            s < n == v@.len(),
            find_arrow_from(v@, a as int) == find_arrow_from(v@, s + 1),
        decreases n - a,
    {
        a = a + 1;
    }
    if n - a < 4 {
        return None;
    }
    let e = find_char_from(v, '}', a + 4);
    proof {
        lemma_find_from(v@, '}', a + 4);
    }
    if e >= n {
        return None;
    }
    Some(substring(v, a + 4, e))
}

/// The text `{old => new}` that a renamed path holds.
pub open spec fn rename_braces(old: Seq<char>, new: Seq<char>) -> Seq<char> {
    seq!['{'] + old + seq![' ', '=', '>', ' '] + new + seq!['}']
}

proof fn lemma_find_arrow_from_is(t: Seq<char>, from: int, k: int)
    requires
        0 <= from <= k,
        k + 4 <= t.len(),
        t[k] == ' ' && t[k + 1] == '=' && t[k + 2] == '>' && t[k + 3] == ' ',
        forall|j: int| from + 2 <= j < k + 2 ==> t[j] != '>',
    ensures
        find_arrow_from(t, from) == k,
    decreases k - from,
{
    if from < k {
        lemma_find_arrow_from_is(t, from + 1, k);
    }
}

/// The new path of a rename is what follows the arrow: in a path that reads
/// `p{a => b}q`, with no `{` before the braces, no `>` in the old path `a`
/// and no `}` in the new path `b`, the rename target is `b`.
pub proof fn lemma_rename_target_is_new_path(p: Seq<char>, a: Seq<char>, b: Seq<char>, q: Seq<char>)
    requires
        !p.contains('{'),
        !a.contains('>'),
        !b.contains('}'),
    ensures
        rename_target(p + rename_braces(a, b) + q) == Some(b),
{
    let t = p + rename_braces(a, b) + q;
    let s = p.len() as int;
    let k = s + 1 + a.len();
    let e = k + 4 + b.len();
    assert(t.len() == e + 1 + q.len());
    assert forall|j: int| 0 <= j < s implies t[j] != '{' by {
        assert(t[j] == p[j]);
    }
    assert(t[s] == '{');
    lemma_find_from_is(t, '{', 0, s);
    assert(t[k] == ' ' && t[k + 1] == '=' && t[k + 2] == '>' && t[k + 3] == ' ');
    assert forall|j: int| s + 3 <= j < k + 2 implies t[j] != '>' by {
        if j < k {
            assert(t[j] == a[j - s - 1]);
        }
    }
    lemma_find_arrow_from_is(t, s + 1, k);
    assert forall|j: int| k + 4 <= j < e implies t[j] != '}' by {
        assert(t[j] == b[j - k - 4]);
    }
    assert(t[e] == '}');
    lemma_find_from_is(t, '}', k + 4, e);
    assert(t.subrange(k + 4, e) =~= b);
}

/// A renamed file's diff and untracking go to its new path: for a renamed
/// file whose path reads `p{a => b}q` (as in `lemma_rename_target_is_new_path`),
/// the path used is `b`, the text between the arrow and `}`.
pub proof fn lemma_renamed_file_uses_new_path(line: Seq<char>, p: Seq<char>, a: Seq<char>, b: Seq<char>, q: Seq<char>)
    requires
        !p.contains('{'),
        !a.contains('>'),
        !b.contains('}'),
    ensures
        diff_path((line, Some(p + rename_braces(a, b) + q), Some(DiffType::Renamed))) == Some(b),
{
    lemma_rename_target_is_new_path(p, a, b, q);
}

/// The path whose diff is shown for a file: the new path of a rename, the
/// file's path otherwise.
pub open spec fn diff_path(f: (Seq<char>, Option<Seq<char>>, Option<DiffType>)) -> Option<Seq<char>> {
    match f.1 {
        None => None,
        Some(p) => if f.2 == Some(DiffType::Renamed) && rename_target(p) is Some {
            rename_target(p)
        } else {
            Some(p)
        },
    }
}

fn diff_path_of(file: &File) -> (r: Option<String>)
    ensures
        diff_path(file@) == match r { Some(t) => Some(t@), None => None },
{
    let path = match &file.path {
        Some(p) => p,
        None => return None,
    };
    if file.diff_type == Some(DiffType::Renamed) {
        match rename_target_of(&chars_of(path.as_str())) {
            Some(t) => return Some(t),
            None => {},
        }
    }
    Some(path.clone())
}

/// `s` with each `"` escaped as `\"`.
pub open spec fn escape_quotes(s: Seq<char>) -> Seq<char>
    decreases s.len(),
{
    if s.len() == 0 {
        seq![]
    } else {
        escape_quotes(s.drop_last()) + if s.last() == '"' { seq!['\\', '"'] } else { seq![s.last()] }
    }
}

/// The fileset that names exactly one path: `file:"<path>"`.
pub open spec fn fileset_of(path: Seq<char>) -> Seq<char> {
    "file:\""@ + escape_quotes(path) + "\""@
}

fn fileset(path: &String) -> (r: String)
    ensures
        r@ == fileset_of(path@),
{
    let v = chars_of(path.as_str());
    let mut out = owned("file:\"");
    let ghost start = out@;
    let mut i: usize = 0;
    while i < v.len()
        invariant
            i <= v@.len(),
            v@ == path@,
            out@ == start + escape_quotes(v@.take(i as int)),
        decreases v@.len() - i,
    {
        proof {
            assert(v@.take(i + 1).drop_last() =~= v@.take(i as int));
            assert(v@.take(i + 1).last() == v@[i as int]);
        }
        if v[i] == '"' {
            crate::strings::push_char(&mut out, '\\');
            crate::strings::push_char(&mut out, '"');
        } else {
            crate::strings::push_char(&mut out, v[i]);
        }
        assert(out@ =~= start + escape_quotes(v@.take(i + 1)));
        i = i + 1;
    }
    assert(v@.take(i as int) =~= v@);
    out.append("\"");
    out
}

/// The arguments of `jj diff` that show one file's diff, if the file has a path.
pub fn file_diff_args(head: &Head, current_file: &File, diff_format: &DiffFormat, ignore_working_copy: bool) -> (r: Option<Vec<String>>)
    ensures
        match diff_path(current_file@) {
            None => r is None,
            Some(p) => r matches Some(a) && views(a@) == seq!["diff"@, "-r"@, head.commit_id@, fileset_of(p)]
                + diff_format_args(*diff_format) + if ignore_working_copy { seq!["--ignore-working-copy"@] } else { seq![] },
        },
{
    let path = match diff_path_of(current_file) {
        Some(p) => p,
        None => return None,
    };
    let mut r: Vec<String> = Vec::new();
    r.push(owned("diff"));
    r.push(owned("-r"));
    r.push(owned(head.commit_id.as_str()));
    r.push(fileset(&path));
    let mut d = diff_format.get_args();
    r.append(&mut d);
    if ignore_working_copy {
        r.push(owned("--ignore-working-copy"));
    }
    proof {
        assert(views(r@) =~= seq!["diff"@, "-r"@, head.commit_id@, fileset_of(path@)]
            + diff_format_args(*diff_format) + if ignore_working_copy { seq!["--ignore-working-copy"@] } else { seq![] });
    }
    Some(r)
}

/// The arguments of `jj file untrack` for a file, if the file has a path.
pub fn untrack_file_args(current_file: &File) -> (r: Option<Vec<String>>)
    ensures
        match diff_path(current_file@) {
            None => r is None,
            Some(p) => r matches Some(a) && views(a@) == seq!["file"@, "untrack"@, fileset_of(p)],
        },
{
    let path = match diff_path_of(current_file) {
        Some(p) => p,
        None => return None,
    };
    let mut r: Vec<String> = Vec::new();
    r.push(owned("file"));
    r.push(owned("untrack"));
    r.push(fileset(&path));
    assert(views(r@) =~= seq!["file"@, "untrack"@, fileset_of(path@)]);
    Some(r)
}

} // verus!
