//! An eagerly loaded repository: the whole ancestor chain of the current
//! branch HEAD held in memory, tip first, down to the root commit.

use vstd::prelude::*;

use crate::git::{Commit, Repository as RepositoryTrait, commit_eq, commits_eq};

verus! {

/// The ancestor chain of the current branch HEAD, tip first.  The final
/// commit is the repository root, so the chain is never empty.
#[derive(Debug, PartialEq)]
pub struct Repository {
    pub history: Vec<Commit>,
}

impl Repository {
    /// The chain holds at least the root commit.
    pub open spec fn wf(self) -> bool {
        self.history@.len() >= 1
    }

    pub fn new(history: Vec<Commit>) -> (r: Self)
        requires
            history@.len() >= 1,
        ensures
            r.history == history,
            r.wf(),
    {
        Repository { history }
    }

}

impl RepositoryTrait for Repository {
    open spec fn history(&self) -> Seq<Commit> {
        self.history@
    }

    /// The initial commit of the repository.
    fn root(&self) -> (c: Commit) {
        self.history[self.history.len() - 1].clone()
    }

    /// An iterator over the ancestors of HEAD, tip first.
    fn ancestor_iter(&self) -> (it: BranchHistory) {
        let mut commits: Vec<Commit> = Vec::new();
        let mut i: usize = 0;
        while i < self.history.len()
            invariant
                i <= self.history.len(),
                commits@.len() == i,
                forall|j: int| 0 <= j < i ==> commit_eq(#[trigger] commits@[j], self.history@[j]),
            decreases self.history.len() - i,
        {
            commits.push(self.history[i].clone());
            i = i + 1;
        }
        BranchHistory { commits, pos: 0 }
    }
}

/// A walk over the ancestor chain of a branch, tip first.
#[derive(Debug, PartialEq)]
pub struct BranchHistory {
    pub commits: Vec<Commit>,
    pub pos: usize,
}

impl BranchHistory {
    /// The next (older) commit on the chain, or `None` past the root.
    pub fn next(&mut self) -> (c: Option<Commit>)
        requires
            old(self).pos <= old(self).commits@.len(),
        ensures
            final(self).commits == old(self).commits,
            old(self).pos < old(self).commits@.len() ==> {
                &&& final(self).pos == old(self).pos + 1
                &&& c matches Some(x) && commit_eq(x, final(self).commits@[old(self).pos as int])
            },
            old(self).pos == old(self).commits@.len() ==> {
                &&& final(self).pos == old(self).pos
                &&& c is None
            },
    {
        if self.pos < self.commits.len() {
            let c = self.commits[self.pos].clone();
            self.pos = self.pos + 1;
            Some(c)
        } else {
            None
        }
    }
}

} // verus!
