//! jj branches (the older name of bookmarks): how lazyjj lists them and
//! reads their names.
use vstd::prelude::*;

use crate::commander::bookmarks::{
    all_remotes_args, colored_list_args, parse_ref, parsed_ref, present_list_args, ref_lines, ref_text,
    ref_to_string, refs_of_lines, show_ref_args, template_list_args, RefView, REF_TARGETS_TOML,
    REF_TEMPLATE,
};
use crate::commander::diff_format_args;
use crate::env::DiffFormat;
use crate::strings::{chars_of, lines_of, split_lines, string_from_chars, views};

verus! {

/// A branch: its name, its remote (none for a local branch), and whether it
/// points somewhere.
#[derive(Clone, Debug, PartialEq)]
pub struct Branch {
    pub name: String,
    pub remote: Option<String>,
    pub present: bool,
}

impl View for Branch {
    type V = RefView;

    open spec fn view(&self) -> RefView {
        (self.name@, match self.remote { Some(r) => Some(r@), None => None }, self.present)
    }
}

impl Branch {
    /// The branch as jj names it (see `ref_text`).
    pub fn to_string(&self) -> (r: String)
        ensures
            r@ == ref_text(self@),
    {
        ref_to_string(&self.name, &self.remote)
    }
}

/// Read a branch from a line of the ref template.
pub fn parse_branch(text: &str) -> (r: Option<Branch>)
    ensures
        parsed_ref(text@) == match r { Some(b) => Some(b@), None => None },
{
    match parse_ref(&chars_of(text)) {
        Some((name, remote, present)) => Some(Branch { name, remote, present }),
        None => None,
    }
}

/// A line of the branch list: as jj colors it, and the branch on it if it
/// could be read.
#[derive(Clone, Debug)]
pub enum BranchLine {
    Unparsable(String),
    Parsed { text: String, branch: Branch },
}

impl View for BranchLine {
    type V = (Seq<char>, Option<RefView>);

    open spec fn view(&self) -> (Seq<char>, Option<RefView>) {
        match self {
            BranchLine::Unparsable(t) => (t@, None),
            BranchLine::Parsed { text, branch } => (text@, Some(branch@)),
        }
    }
}

/// The views of a list of branch lines.
pub open spec fn branch_line_views(v: Seq<BranchLine>) -> Seq<(Seq<char>, Option<RefView>)> {
    v.map_values(|l: BranchLine| l@)
}

/// Pairs the plain and the colored branch list line by line.
pub fn parse_branch_lines(plain: &str, colored: &str) -> (r: Vec<BranchLine>)
    ensures
        branch_line_views(r@) == ref_lines(plain@, colored@),
{
    let p = split_lines(&chars_of(plain));
    let c = split_lines(&chars_of(colored));
    let ghost pv = p@.map_values(|l: Vec<char>| l@);
    let ghost cv = c@.map_values(|l: Vec<char>| l@);
    let n = if p.len() < c.len() { p.len() } else { c.len() };
    let mut r: Vec<BranchLine> = Vec::new();
    let mut i: usize = 0;
    while i < n
        invariant
            i <= n,
            n <= p@.len(),
            n <= c@.len(),
            pv == p@.map_values(|l: Vec<char>| l@),
            cv == c@.map_values(|l: Vec<char>| l@),
            pv == lines_of(plain@),
            cv == lines_of(colored@),
            branch_line_views(r@) == ref_lines(plain@, colored@).take(i as int),
        decreases n - i,
    {
        let text = string_from_chars(c[i].as_slice());
        let line = match parse_ref(&p[i]) {
            Some((name, remote, present)) => BranchLine::Parsed { text, branch: Branch { name, remote, present } },
            None => BranchLine::Unparsable(text),
        };
        let ghost prev = branch_line_views(r@);
        r.push(line);
        proof {
            assert(branch_line_views(r@) =~= prev.push(line@));
            assert(ref_lines(plain@, colored@).take(i + 1) =~= ref_lines(plain@, colored@).take(i as int).push(line@));
        }
        i = i + 1;
    }
    assert(ref_lines(plain@, colored@).take(n as int) =~= ref_lines(plain@, colored@));
    r
}

/// The views of a list of branches.
pub open spec fn branch_views(v: Seq<Branch>) -> Seq<RefView> {
    v.map_values(|b: Branch| b@)
}

/// The branches of a plain branch list, leaving out lines that hold none.
pub fn parse_branches_list(output: &str) -> (r: Vec<Branch>)
    ensures
        branch_views(r@) == refs_of_lines(lines_of(output@)),
{
    let lines = split_lines(&chars_of(output));
    let ghost lv = lines@.map_values(|l: Vec<char>| l@);
    let mut r: Vec<Branch> = Vec::new();
    let mut i: usize = 0;
    while i < lines.len()
        invariant
            i <= lines@.len(),
            lv == lines@.map_values(|l: Vec<char>| l@),
            lv == lines_of(output@),
            branch_views(r@) == refs_of_lines(lv.take(i as int)),
        decreases lines@.len() - i,
    {
        proof {
            assert(lv.take(i + 1).drop_last() =~= lv.take(i as int));
            assert(lv.take(i + 1).last() == lv[i as int]);
        }
        match parse_ref(&lines[i]) {
            Some((name, remote, present)) => {
                let b = Branch { name, remote, present };
                let ghost prev = branch_views(r@);
                r.push(b);
                assert(branch_views(r@) =~= prev.push(b@));
            },
            None => {},
        }
        i = i + 1;
    }
    assert(lv.take(i as int) =~= lv);
    r
}

/// The arguments of `jj branch list` that print the colored list.
pub fn branches_colored_args(show_all: bool) -> (r: Vec<String>)
    ensures
        views(r@) == seq!["branch"@, "list"@, "--config-toml"@, REF_TARGETS_TOML@] + all_remotes_args(show_all),
{
    colored_list_args("branch", show_all)
}

/// The arguments of `jj branch list` that print each branch with the ref template.
pub fn branches_template_args(show_all: bool) -> (r: Vec<String>)
    ensures
        views(r@) == seq!["branch"@, "list"@, "-T"@, REF_TEMPLATE@ + " ++ \"\\n\""@] + all_remotes_args(show_all),
{
    template_list_args("branch", show_all)
}

/// The arguments of `jj branch list` that print only the present branches.
pub fn branches_list_args(show_all: bool) -> (r: Vec<String>)
    ensures
        views(r@) == seq!["branch"@, "list"@, "-T"@, "if(present, "@ + REF_TEMPLATE@ + " ++ \"\\n\", \"\")"@] + all_remotes_args(show_all),
{
    present_list_args("branch", show_all)
}

/// The arguments of `jj show` for a branch.
pub fn branch_show_args(branch: &Branch, diff_format: &DiffFormat) -> (r: Vec<String>)
    ensures
        views(r@) == seq!["show"@, ref_text(branch@)] + diff_format_args(*diff_format),
{
    show_ref_args(branch.to_string(), diff_format)
}

} // verus!
