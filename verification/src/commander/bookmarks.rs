//! jj bookmarks: how lazyjj lists them and reads their names.
use vstd::prelude::*;

use crate::commander::{diff_format_args, end_line_removed};
use crate::env::DiffFormat;
use crate::strings::{
    bool_word, chars_of, false_word, is_true_word, lemma_rfind_in, lemma_rfind_in_is, lines_of,
    owned, rfind_char_in, rfind_in, split_lines, string_from_chars, substring, true_word, views,
};

verus! {

/// A bookmark: its name, its remote (none for a local bookmark), and
/// whether it points somewhere.
#[derive(Clone, Debug, PartialEq)]
pub struct Bookmark {
    pub name: String,
    pub remote: Option<String>,
    pub present: bool,
}

/// The view of a named ref: name, remote, present.
pub type RefView = (Seq<char>, Option<Seq<char>>, bool);

impl View for Bookmark {
    type V = RefView;

    open spec fn view(&self) -> RefView {
        (self.name@, match self.remote { Some(r) => Some(r@), None => None }, self.present)
    }
}

/// How a ref is written: `name`, or `name@remote`.
pub open spec fn ref_text(v: RefView) -> Seq<char> {
    match v.1 {
        Some(r) => v.0 + "@"@ + r,
        None => v.0,
    }
}

pub(crate) fn ref_to_string(name: &String, remote: &Option<String>) -> (r: String)
    ensures
        r@ == match remote { Some(x) => name@ + "@"@ + x@, None => name@ },
{
    let mut text = name.clone();
    match remote {
        Some(x) => {
            text.append("@");
            text.append(x.as_str());
        },
        None => {},
    }
    text
}

impl Bookmark {
    /// The bookmark as jj names it (see `ref_text`).
    pub fn to_string(&self) -> (r: String)
        ensures
            r@ == ref_text(self@),
    {
        ref_to_string(&self.name, &self.remote)
    }

    /// A copy of this bookmark.
    pub fn duplicate(&self) -> (r: Bookmark)
        ensures
            r@ == self@,
    {
        Bookmark {
            name: self.name.clone(),
            remote: match &self.remote {
                Some(x) => Some(x.clone()),
                None => None,
            },
            present: self.present,
        }
    }
}

// A ref is printed with `"[" ++ name ++ "@" ++ remote ++ "|" ++ present ++ "]"`
// and read back as follows: the whole line is `[` ... `]` without '\n'; the
// last `|` before the `]` ends the remote, and the last `@` before that `|`
// ends the name.

/// The `|` that ends the remote in a ref line.
pub open spec fn ref_bar(t: Seq<char>) -> int {
    rfind_in(t, '|', 1, t.len() - 1)
}

/// The `@` that ends the name in a ref line.
pub open spec fn ref_at(t: Seq<char>) -> int {
    rfind_in(t, '@', 1, ref_bar(t))
}

/// The ref that a line of the ref template holds, if it holds one.
pub open spec fn parsed_ref(t: Seq<char>) -> Option<RefView> {
    if t.len() >= 2 && t[0] == '[' && t[t.len() - 1] == ']' && !t.contains('\n') && ref_at(t) >= 1 {
        let remote = t.subrange(ref_at(t) + 1, ref_bar(t));
        Some((
            t.subrange(1, ref_at(t)),
            if remote.len() == 0 { None } else { Some(remote) },
            t.subrange(ref_bar(t) + 1, t.len() - 1) == true_word(),
        ))
    } else {
        None
    }
}

/// Reads a line of the ref template into its name, remote and presence.
pub(crate) fn parse_ref(v: &Vec<char>) -> (r: Option<(String, Option<String>, bool)>)
    ensures
        parsed_ref(v@) == match r {
            Some(x) => Some((x.0@, match x.1 { Some(y) => Some(y@), None => None }, x.2)),
            None => None,
        },
{
    let n = v.len();
    if !(n >= 2 && v[0] == '[' && v[n - 1] == ']') {
        return None;
    }
    let mut k: usize = 0;
    while k < n
        invariant
            k <= n == v@.len(),
            forall|j: int| 0 <= j < k ==> v@[j] != '\n',
        decreases n - k,
    {
        if v[k] == '\n' {
            assert(v@.contains('\n'));
            return None;
        }
        k = k + 1;
    }
    assert(!v@.contains('\n'));
    proof {
        lemma_rfind_in(v@, '|', 1, n - 1);
    }
    let bar = match rfind_char_in(v, '|', 1, n - 1) {
        Some(b) => b,
        None => {
            proof {
                lemma_rfind_in(v@, '@', 1, ref_bar(v@));
            }
            return None;
        },
    };
    let at = match rfind_char_in(v, '@', 1, bar) {
        Some(a) => a,
        None => return None,
    };
    let remote = substring(v, at + 1, bar);
    let remote = if at + 1 == bar { None } else { Some(remote) };
    Some((substring(v, 1, at), remote, is_true_word(v, bar + 1, n - 1)))
}

/// Read a bookmark from a line of the ref template.
pub fn parse_bookmark(text: &str) -> (r: Option<Bookmark>)
    ensures
        parsed_ref(text@) == match r { Some(b) => Some(b@), None => None },
{
    match parse_ref(&chars_of(text)) {
        Some((name, remote, present)) => Some(Bookmark { name, remote, present }),
        None => None,
    }
}

/// What the ref template prints for a ref: `[name@remote|present]`, with
/// nothing between `@` and `|` for a local ref.
pub open spec fn ref_template_text(v: RefView) -> Seq<char> {
    let remote = match v.1 {
        Some(r) => r,
        None => seq![],
    };
    seq!['['] + v.0 + seq!['@'] + remote + seq!['|'] + bool_word(v.2) + seq![']']
}

/// Reading back what the ref template printed gives the ref that was
/// printed, for a name on one line and a remote (non-empty, as jj has them)
/// without `@`, `|` or a line break.
pub proof fn lemma_ref_template_roundtrip(v: RefView)
    requires
        !v.0.contains('\n'),
        v.1 matches Some(r) ==> r.len() > 0 && !r.contains('@') && !r.contains('|') && !r.contains('\n'),
    ensures
        parsed_ref(ref_template_text(v)) == Some(v),
{
    let t = ref_template_text(v);
    let name = v.0;
    let remote = match v.1 {
        Some(r) => r,
        None => seq![],
    };
    let w = bool_word(v.2);
    let at: int = 1 + name.len() as int;
    let bar: int = at + 1 + remote.len();
    let e: int = bar + 1 + w.len();
    assert(true_word().len() == 4 && false_word().len() == 5);
    assert(forall|k: int| 0 <= k < true_word().len() ==> true_word()[k] != '|' && true_word()[k] != '\n');
    assert(forall|k: int| 0 <= k < false_word().len() ==> false_word()[k] != '|' && false_word()[k] != '\n');
    assert(t.len() == e + 1);
    assert(t[0] == '[');
    assert(t[at] == '@');
    assert(t[bar] == '|');
    assert(t[e] == ']');
    assert forall|j: int| 0 < j < at implies t[j] == name[j - 1] by {}
    assert forall|j: int| at < j < bar implies t[j] == remote[j - at - 1] by {}
    assert forall|j: int| bar < j < e implies t[j] == w[j - bar - 1] by {}
    assert forall|j: int| 0 <= j < t.len() implies t[j] != '\n' by {
        if 0 < j < at {
            assert(name[j - 1] != '\n');
        } else if at < j < bar {
            assert(remote[j - at - 1] != '\n');
        }
    }
    assert forall|j: int| bar < j < t.len() - 1 implies t[j] != '|' by {}
    assert forall|j: int| at < j < bar implies t[j] != '@' by {
        assert(remote[j - at - 1] != '@');
    }
    lemma_rfind_in_is(t, '|', 1, t.len() - 1, bar);
    lemma_rfind_in_is(t, '@', 1, bar, at);
    assert(ref_bar(t) == bar);
    assert(ref_at(t) == at);
    assert(t.subrange(1, at) =~= name);
    assert(t.subrange(at + 1, bar) =~= remote);
    assert(t.subrange(bar + 1, t.len() - 1) =~= w);
    assert(w == true_word() <==> v.2) by {
        if !v.2 {
            assert(w.len() != true_word().len());
        }
    }
}

/// A line of the bookmark list: as jj colors it, and the bookmark on it if
/// it could be read.
#[derive(Clone, Debug)]
pub enum BookmarkLine {
    Unparsable(String),
    Parsed { text: String, bookmark: Bookmark },
}

impl View for BookmarkLine {
    type V = (Seq<char>, Option<RefView>);

    open spec fn view(&self) -> (Seq<char>, Option<RefView>) {
        match self {
            BookmarkLine::Unparsable(t) => (t@, None),
            BookmarkLine::Parsed { text, bookmark } => (text@, Some(bookmark@)),
        }
    }
}

/// The list lines: each plain line read as a ref, paired with the colored
/// line at the same position (as many as the shorter output has).
pub open spec fn ref_lines(plain: Seq<char>, colored: Seq<char>) -> Seq<(Seq<char>, Option<RefView>)> {
    let p = lines_of(plain);
    let c = lines_of(colored);
    let n = if p.len() < c.len() { p.len() } else { c.len() };
    Seq::new(n, |i: int| (c[i], parsed_ref(p[i])))
}

/// The views of a list of bookmark lines.
pub open spec fn bookmark_line_views(v: Seq<BookmarkLine>) -> Seq<(Seq<char>, Option<RefView>)> {
    v.map_values(|l: BookmarkLine| l@)
}

/// Pairs the plain and the colored bookmark list line by line.
pub fn parse_bookmark_lines(plain: &str, colored: &str) -> (r: Vec<BookmarkLine>)
    ensures
        bookmark_line_views(r@) == ref_lines(plain@, colored@),
{
    let p = split_lines(&chars_of(plain));
    let c = split_lines(&chars_of(colored));
    let ghost pv = p@.map_values(|l: Vec<char>| l@);
    let ghost cv = c@.map_values(|l: Vec<char>| l@);
    let n = if p.len() < c.len() { p.len() } else { c.len() };
    let mut r: Vec<BookmarkLine> = Vec::new();
    let mut i: usize = 0;
    while i < n
        invariant
            i <= n,
            n <= p@.len(),
            n <= c@.len(),
            pv == p@.map_values(|l: Vec<char>| l@),
            cv == c@.map_values(|l: Vec<char>| l@),
            pv == lines_of(plain@),
            cv == lines_of(colored@),
            bookmark_line_views(r@) == ref_lines(plain@, colored@).take(i as int),
        decreases n - i,
    {
        let text = string_from_chars(c[i].as_slice());
        let line = match parse_ref(&p[i]) {
            Some((name, remote, present)) => BookmarkLine::Parsed { text, bookmark: Bookmark { name, remote, present } },
            None => BookmarkLine::Unparsable(text),
        };
        let ghost prev = bookmark_line_views(r@);
        r.push(line);
        proof {
            assert(bookmark_line_views(r@) =~= prev.push(line@));
            assert(ref_lines(plain@, colored@).take(i + 1) =~= ref_lines(plain@, colored@).take(i as int).push(line@));
        }
        i = i + 1;
    }
    assert(ref_lines(plain@, colored@).take(n as int) =~= ref_lines(plain@, colored@));
    r
}

/// The refs read from the lines of `output`, leaving out lines that hold none.
pub open spec fn refs_of_lines(lines: Seq<Seq<char>>) -> Seq<RefView>
    decreases lines.len(),
{
    if lines.len() == 0 {
        seq![]
    } else {
        match parsed_ref(lines.last()) {
            Some(b) => refs_of_lines(lines.drop_last()).push(b),
            None => refs_of_lines(lines.drop_last()),
        }
    }
}

/// The views of a list of bookmarks.
pub open spec fn bookmark_views(v: Seq<Bookmark>) -> Seq<RefView> {
    v.map_values(|b: Bookmark| b@)
}

/// The bookmarks of a plain bookmark list, leaving out lines that hold none.
pub fn parse_bookmarks_list(output: &str) -> (r: Vec<Bookmark>)
    ensures
        bookmark_views(r@) == refs_of_lines(lines_of(output@)),
{
    let lines = split_lines(&chars_of(output));
    let ghost lv = lines@.map_values(|l: Vec<char>| l@);
    let mut r: Vec<Bookmark> = Vec::new();
    let mut i: usize = 0;
    while i < lines.len()
        invariant
            i <= lines@.len(),
            lv == lines@.map_values(|l: Vec<char>| l@),
            lv == lines_of(output@),
            bookmark_views(r@) == refs_of_lines(lv.take(i as int)),
        decreases lines@.len() - i,
    {
        proof {
            assert(lv.take(i + 1).drop_last() =~= lv.take(i as int));
            assert(lv.take(i + 1).last() == lv[i as int]);
        }
        match parse_ref(&lines[i]) {
            Some((name, remote, present)) => {
                let b = Bookmark { name, remote, present };
                let ghost prev = bookmark_views(r@);
                r.push(b);
                assert(bookmark_views(r@) =~= prev.push(b@));
            },
            None => {},
        }
        i = i + 1;
    }
    assert(lv.take(i as int) =~= lv);
    r
}

/// Configuration that makes the list show `(conflicted)` in place of the
/// targets of a conflicted ref.
pub const REF_TARGETS_TOML: &'static str = r#"
                            template-aliases.'format_ref_targets(ref)' = '''
                                if(ref.conflict(),
                                  " " ++ label("conflict", "(conflicted)"),
                                  ": " ++ format_commit_summary_with_refs(ref.normal_target(), ""),
                                )
                            '''
                        "#;

/// The template that prints a ref: `[name@remote|present]`.
pub const REF_TEMPLATE: &'static str = r#""[" ++ name ++ "@" ++ remote ++ "|" ++ present ++ "]""#;

/// `--all-remotes` when all remote bookmarks are to be listed.
pub open spec fn all_remotes_args(show_all: bool) -> Seq<Seq<char>> {
    if show_all { seq!["--all-remotes"@] } else { seq![] }
}

/// The arguments of `jj <kind> list` that print the colored list.
pub(crate) fn colored_list_args(kind: &str, show_all: bool) -> (r: Vec<String>)
    ensures
        views(r@) == seq![kind@, "list"@, "--config-toml"@, REF_TARGETS_TOML@] + all_remotes_args(show_all),
{
    let mut r: Vec<String> = Vec::new();
    r.push(owned(kind));
    r.push(owned("list"));
    r.push(owned("--config-toml"));
    r.push(owned(REF_TARGETS_TOML));
    if show_all {
        r.push(owned("--all-remotes"));
    }
    assert(views(r@) =~= seq![kind@, "list"@, "--config-toml"@, REF_TARGETS_TOML@] + all_remotes_args(show_all));
    r
}

/// The arguments of `jj <kind> list` that print each ref with the ref template.
pub(crate) fn template_list_args(kind: &str, show_all: bool) -> (r: Vec<String>)
    ensures
        views(r@) == seq![kind@, "list"@, "-T"@, REF_TEMPLATE@ + " ++ \"\\n\""@] + all_remotes_args(show_all),
{
    let mut t = owned(REF_TEMPLATE);
    t.append(" ++ \"\\n\"");
    let mut r: Vec<String> = Vec::new();
    r.push(owned(kind));
    r.push(owned("list"));
    r.push(owned("-T"));
    r.push(t);
    if show_all {
        r.push(owned("--all-remotes"));
    }
    assert(views(r@) =~= seq![kind@, "list"@, "-T"@, REF_TEMPLATE@ + " ++ \"\\n\""@] + all_remotes_args(show_all));
    r
}

/// The arguments of `jj <kind> list` that print only the present refs.
pub(crate) fn present_list_args(kind: &str, show_all: bool) -> (r: Vec<String>)
    ensures
        views(r@) == seq![kind@, "list"@, "-T"@, "if(present, "@ + REF_TEMPLATE@ + " ++ \"\\n\", \"\")"@] + all_remotes_args(show_all),
{
    let mut t = owned("if(present, ");
    t.append(REF_TEMPLATE);
    t.append(" ++ \"\\n\", \"\")");
    let mut r: Vec<String> = Vec::new();
    r.push(owned(kind));
    r.push(owned("list"));
    r.push(owned("-T"));
    r.push(t);
    if show_all {
        r.push(owned("--all-remotes"));
    }
    assert(views(r@) =~= seq![kind@, "list"@, "-T"@, "if(present, "@ + REF_TEMPLATE@ + " ++ \"\\n\", \"\")"@] + all_remotes_args(show_all));
    r
}

/// The arguments of `jj bookmark list` that print the colored list.
pub fn bookmarks_colored_args(show_all: bool) -> (r: Vec<String>)
    ensures
        views(r@) == seq!["bookmark"@, "list"@, "--config-toml"@, REF_TARGETS_TOML@] + all_remotes_args(show_all),
{
    colored_list_args("bookmark", show_all)
}

/// The arguments of `jj bookmark list` that print each bookmark with the ref template.
pub fn bookmarks_template_args(show_all: bool) -> (r: Vec<String>)
    ensures
        views(r@) == seq!["bookmark"@, "list"@, "-T"@, REF_TEMPLATE@ + " ++ \"\\n\""@] + all_remotes_args(show_all),
{
    template_list_args("bookmark", show_all)
}

/// The arguments of `jj bookmark list` that print only the present bookmarks.
pub fn bookmarks_list_args(show_all: bool) -> (r: Vec<String>)
    ensures
        views(r@) == seq!["bookmark"@, "list"@, "-T"@, "if(present, "@ + REF_TEMPLATE@ + " ++ \"\\n\", \"\")"@] + all_remotes_args(show_all),
{
    present_list_args("bookmark", show_all)
}

/// The arguments of `jj show` for a ref.
pub(crate) fn show_ref_args(rev: String, diff_format: &DiffFormat) -> (r: Vec<String>)
    ensures
        views(r@) == seq!["show"@, rev@] + diff_format_args(*diff_format),
{
    let mut r: Vec<String> = Vec::new();
    r.push(owned("show"));
    r.push(rev);
    let mut d = diff_format.get_args();
    let ghost before = views(r@);
    r.append(&mut d);
    assert(views(r@) =~= before + diff_format_args(*diff_format));
    r
}

/// The arguments of `jj show` for a bookmark.
pub fn bookmark_show_args(bookmark: &Bookmark, diff_format: &DiffFormat) -> (r: Vec<String>)
    ensures
        views(r@) == seq!["show"@, ref_text(bookmark@)] + diff_format_args(*diff_format),
{
    show_ref_args(bookmark.to_string(), diff_format)
}

} // verus!
