//! How the branches tab finds its selection in a fresh list; its keys are
//! those of the bookmarks tab.
use vstd::prelude::*;

use crate::commander::branches::BranchLine;
use crate::commander::CommandError;
use crate::ui::bookmarks_tab::{first_same_index, first_same_line, first_named, lemma_first_same_unique, no_same_line, ref_sel, same_ref_line, RefLineView, RefSel};
use crate::ui::utils::{scroll_index, scrolled_index};

verus! {

/// The views of a list of branch lines.
pub open spec fn branch_line_views(v: Seq<BranchLine>) -> Seq<RefLineView> {
    v.map_values(|l: BranchLine| l@)
}

fn same_line(a: &BranchLine, b: &BranchLine) -> (r: bool)
    ensures
        r == same_ref_line(a@, b@),
{
    match (a, b) {
        (BranchLine::Parsed { branch: x, .. }, BranchLine::Parsed { branch: y, .. }) => {
            x.name == y.name && match (&x.remote, &y.remote) {
                (Some(p), Some(q)) => *p == *q,
                (None, None) => true,
                _ => false,
            }
        },
        (BranchLine::Unparsable(x), BranchLine::Unparsable(y)) => *x == *y,
        _ => false,
    }
}

fn position_of_line(c: &BranchLine, list: &Vec<BranchLine>) -> (r: Option<usize>)
    ensures
        match r {
            Some(i) => first_same_line(branch_line_views(list@), c@, i as int),
            None => no_same_line(branch_line_views(list@), c@),
        },
{
    let ghost lv = branch_line_views(list@);
    let mut i: usize = 0;
    while i < list.len()
        invariant
            i <= list@.len(),
            lv == branch_line_views(list@),
            forall|j: int| 0 <= j < i ==> !same_ref_line(c@, #[trigger] lv[j]),
        decreases list@.len() - i,
    {
        if same_line(c, &list[i]) {
            assert(lv[i as int] == list@[i as int]@);
            return Some(i);
        }
        i = i + 1;
    }
    None
}

/// The place in the listed branches of the selected one: the first line
/// with the same name and remote, or the same text for a line that could
/// not be read. None without a selection, without a match, or when the
/// list could not be had.
pub fn get_current_branch_index(
    current_branch: Option<&BranchLine>,
    branches_output: &Result<Vec<BranchLine>, CommandError>,
) -> (r: Option<usize>)
    ensures
        match (current_branch, branches_output) {
            (Some(c), Ok(list)) => match r {
                Some(i) => first_same_line(branch_line_views(list@), c@, i as int),
                None => no_same_line(branch_line_views(list@), c@),
            },
            _ => r is None,
        },
{
    match (current_branch, branches_output) {
        (Some(c), Ok(list)) => position_of_line(c, list),
        _ => None,
    }
}


/// The branch selected after moving `scroll` lines from the selected
/// one, as the list keys do: the place of the selected branch moved and
/// kept within the list, or the first branch when the selected one is
/// not listed; None for an empty list or a list that could not be had.
pub fn scroll_branches(
    current_branch: Option<&BranchLine>,
    branches_output: &Result<Vec<BranchLine>, CommandError>,
    scroll: isize,
) -> (r: Option<usize>)
    ensures
        match branches_output {
            Ok(list) => {
                let current = match current_branch {
                    Some(c) => match first_same_index(branch_line_views(list@), c@) {
                        Some(i) => Some(i as usize),
                        None => None,
                    },
                    None => None,
                };
                r == match scrolled_index(current, scroll, list@.len()) {
                    Some(i) => Some(i as usize),
                    None => None::<usize>,
                }
            },
            Err(_) => r is None,
        },
        r matches Some(i) ==> branches_output matches Ok(list) && i < list@.len(),
{
    let current = get_current_branch_index(current_branch, branches_output);
    match branches_output {
        Ok(list) => {
            proof {
                if let Some(c) = current_branch {
                    match current {
                        Some(i) => lemma_first_same_unique(branch_line_views(list@), c@, i as int),
                        None => {
                            if exists|i: int| first_same_line(branch_line_views(list@), c@, i) {
                                let i = choose|i: int| first_same_line(branch_line_views(list@), c@, i);
                                assert(!same_ref_line(c@, branch_line_views(list@)[i]));
                            }
                        },
                    }
                }
            }
            scroll_index(current, scroll, list.len())
        },
        Err(_) => None,
    }
}

/// The first listed branch named `name`, as picked after creating or
/// renaming one.
pub fn find_branch_named(branches: &Vec<BranchLine>, name: &String) -> (r: Option<usize>)
    ensures
        match r {
            Some(i) => first_named(branch_line_views(branches@), name@, i as int),
            None => forall|j: int| 0 <= j < branches@.len() ==> !(#[trigger] branch_line_views(branches@)[j].1 matches Some(b) && b.0 == name@),
        },
{
    let ghost lv = branch_line_views(branches@);
    let mut i: usize = 0;
    while i < branches.len()
        invariant
            i <= branches@.len(),
            lv == branch_line_views(branches@),
            forall|j: int| 0 <= j < i ==> !(#[trigger] lv[j].1 matches Some(b) && b.0 == name@),
        decreases branches@.len() - i,
    {
        match &branches[i] {
            BranchLine::Parsed { branch, .. } => {
                if branch.name == *name {
                    return Some(i);
                }
            },
            BranchLine::Unparsable(_) => {},
        }
        i = i + 1;
    }
    None
}

/// The view of an optional selected branch line.
pub open spec fn opt_branch_line_view(line: Option<&BranchLine>) -> Option<RefLineView> {
    match line {
        Some(l) => Some(l@),
        None => None,
    }
}

/// What is selected, read from the selected branch line.
pub fn branch_sel(line: Option<&BranchLine>) -> (r: RefSel)
    ensures
        r == ref_sel(opt_branch_line_view(line)),
{
    match line {
        None => RefSel::Nothing,
        Some(BranchLine::Unparsable(_)) => RefSel::Unparsable,
        Some(BranchLine::Parsed { branch, .. }) => RefSel::Parsed {
            has_remote: branch.remote.is_some(),
            present: branch.present,
        },
    }
}

} // verus!
