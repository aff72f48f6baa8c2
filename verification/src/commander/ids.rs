//! Identifiers of jj changes and commits.
use vstd::prelude::*;

verus! {

/// A jj change id, as jj prints it.
#[derive(Clone, PartialEq, Eq, Hash, Debug)]
pub struct ChangeId(pub String);

/// A commit id, as jj prints it.
#[derive(Clone, PartialEq, Eq, Hash, Debug)]
pub struct CommitId(pub String);

impl View for ChangeId {
    type V = Seq<char>;

    open spec fn view(&self) -> Seq<char> {
        self.0@
    }
}

impl View for CommitId {
    type V = Seq<char>;

    open spec fn view(&self) -> Seq<char> {
        self.0@
    }
}

impl ChangeId {
    /// The id as text.
    pub fn as_str(&self) -> (r: &str)
        ensures
            r@ == self@,
    {
        self.0.as_str()
    }

    /// A copy of this id.
    pub fn duplicate(&self) -> (r: ChangeId)
        ensures
            r@ == self@,
    {
        ChangeId(self.0.clone())
    }

    /// Whether both ids name the same change.
    pub fn same_as(&self, other: &ChangeId) -> (r: bool)
        ensures
            r == (self@ == other@),
    {
        self.0 == other.0
    }
}

impl CommitId {
    /// The id as text.
    pub fn as_str(&self) -> (r: &str)
        ensures
            r@ == self@,
    {
        self.0.as_str()
    }

    /// A copy of this id.
    pub fn duplicate(&self) -> (r: CommitId)
        ensures
            r@ == self@,
    {
        CommitId(self.0.clone())
    }

    /// Whether both ids name the same commit.
    pub fn same_as(&self, other: &CommitId) -> (r: bool)
        ensures
            r == (self@ == other@),
    {
        self.0 == other.0
    }
}

} // verus!
