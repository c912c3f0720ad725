//! The local repository model: commits and the eagerly loaded ancestor
//! chain of the current branch HEAD.

use vstd::prelude::*;

pub mod eager;

verus! {

/// A git commit, named by its content-addressed object id (20 or 32 bytes).
/// Two commits are the same commit exactly when their ids are equal.
///
/// A `Commit` value also carries the ids of all of its ancestors, loaded
/// eagerly when the repository is read, so that the ancestry predicates are
/// plain functions of the value.
#[derive(Debug, PartialEq)]
pub struct Commit {
    pub id: Vec<u8>,
    pub ancestor_ids: Vec<Vec<u8>>,
}

/// The views of a sequence of byte vectors.
pub open spec fn byte_seqs(l: Seq<Vec<u8>>) -> Seq<Seq<u8>> {
    l.map_values(|v: Vec<u8>| v@)
}

/// The ids of a sequence of commits.
pub open spec fn commit_ids(l: Seq<Commit>) -> Seq<Seq<u8>> {
    l.map_values(|c: Commit| c.id@)
}

/// `c` names the same commit as some element of `l`.
pub open spec fn commit_in(c: Commit, l: Seq<Commit>) -> bool {
    commit_ids(l).contains(c.id@)
}

/// `a` is an ancestor of `b`: `b` carries `a`'s id among its ancestor ids.
pub open spec fn commit_ancestor_of(a: Commit, b: Commit) -> bool {
    byte_seqs(b.ancestor_ids@).contains(a.id@)
}

/// `a` and `b` name the same commit and carry the same ancestor ids.
pub open spec fn commit_eq(a: Commit, b: Commit) -> bool {
    a.id@ == b.id@ && byte_seqs(a.ancestor_ids@) == byte_seqs(b.ancestor_ids@)
}

/// Elementwise `commit_eq` over two sequences.
pub open spec fn commits_eq(a: Seq<Commit>, b: Seq<Commit>) -> bool {
    a.len() == b.len() && (forall|i: int| 0 <= i < a.len() ==> commit_eq(a[i], b[i]))
}

/// Read access to the local repository: the ancestor chain of the current
/// branch HEAD, tip first.
pub trait Repository {
    /// The ancestor chain of HEAD, tip first; its last commit is the root.
    spec fn history(&self) -> Seq<Commit>;

    /// return iter of ancestor from the HEAD of current branch
    fn ancestor_iter(&self) -> (it: eager::BranchHistory)
        ensures
            commits_eq(it.commits@, self.history()),
            it.pos == 0,
    ;

    /// return initial commit of the repository
    fn root(&self) -> (c: Commit)
        requires
            self.history().len() >= 1,
        ensures
            commit_eq(c, self.history().last()),
    ;
}

/// Byte-vector equality, used for object ids.
pub fn bytes_eq(a: &Vec<u8>, b: &Vec<u8>) -> (r: bool)
    ensures
        r == (a@ == b@),
{
    if a.len() != b.len() {
        return false;
    }
    let mut i: usize = 0;
    while i < a.len()
        invariant
            i <= a.len(),
            a.len() == b.len(),
            forall|j: int| 0 <= j < i ==> a@[j] == b@[j],
        decreases a.len() - i,
    {
        if a[i] != b[i] {
            return false;
        }
        i = i + 1;
    }
    assert(a@ =~= b@);
    true
}

impl Commit {
    /// Whether this commit appears in `list` (compared by object id).
    pub fn is_in(&self, list: &Vec<Commit>) -> (r: bool)
        ensures
            r == commit_in(*self, list@),
    {
        let mut i: usize = 0;
        while i < list.len()
            invariant
                i <= list.len(),
                forall|j: int| 0 <= j < i ==> commit_ids(list@)[j] != self.id@,
            decreases list.len() - i,
        {
            if bytes_eq(&self.id, &list[i].id) {
                assert(commit_ids(list@)[i as int] == self.id@);
                return true;
            }
            i = i + 1;
        }
        false
    }

    /// Whether this commit is an ancestor of `other`.
    pub fn is_ancestor_of(&self, other: &Commit) -> (r: bool)
        ensures
            r == commit_ancestor_of(*self, *other),
    {
        let mut i: usize = 0;
        while i < other.ancestor_ids.len()
            invariant
                i <= other.ancestor_ids.len(),
                forall|j: int| 0 <= j < i ==> byte_seqs(other.ancestor_ids@)[j] != self.id@,
            decreases other.ancestor_ids.len() - i,
        {
            if bytes_eq(&self.id, &other.ancestor_ids[i]) {
                assert(byte_seqs(other.ancestor_ids@)[i as int] == self.id@);
                return true;
            }
            i = i + 1;
        }
        false
    }
}

impl Clone for Commit {
    /// A clone names the same commit and carries the same ancestor ids.
    fn clone(&self) -> (r: Self)
        ensures
            commit_eq(r, *self),
    {
        let id = self.id.clone();
        let mut ancestor_ids: Vec<Vec<u8>> = Vec::new();
        let mut i: usize = 0;
        while i < self.ancestor_ids.len()
            invariant
                i <= self.ancestor_ids.len(),
                ancestor_ids@.len() == i,
                forall|j: int| 0 <= j < i ==> ancestor_ids@[j]@ == self.ancestor_ids@[j]@,
            decreases self.ancestor_ids.len() - i,
        {
            ancestor_ids.push(self.ancestor_ids[i].clone());
            i = i + 1;
        }
        assert(byte_seqs(ancestor_ids@) =~= byte_seqs(self.ancestor_ids@));
        Commit { id, ancestor_ids }
    }
}

} // verus!
