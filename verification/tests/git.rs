use git_patch::PeerId;
use git_patch::git::{Commit, Repository as RepositoryTrait};
use git_patch::git::eager::Repository;

fn commit(id: u8, ancestors: &[u8]) -> Commit {
    Commit { id: vec![id], ancestor_ids: ancestors.iter().map(|a| vec![*a]).collect() }
}

#[test]
fn commit_is_in_list() {
    let c = commit(1, &[]);
    assert!(c.is_in(&vec![commit(2, &[]), commit(1, &[0])]));
    assert!(!c.is_in(&vec![commit(2, &[]), commit(3, &[])]));
    assert!(!c.is_in(&vec![]));
}

#[test]
fn commit_ancestry() {
    let old = commit(0, &[]);
    let tip = commit(2, &[1, 0]);
    assert!(old.is_ancestor_of(&tip));
    assert!(!tip.is_ancestor_of(&old));
    assert!(!tip.is_ancestor_of(&tip));
}

#[test]
fn repository_root_is_last() {
    let repo = Repository::new(vec![commit(2, &[1, 0]), commit(1, &[0]), commit(0, &[])]);
    assert_eq!(repo.root().id, vec![0]);
}

#[test]
fn branch_history_walks_tip_first() {
    let repo = Repository::new(vec![commit(2, &[1, 0]), commit(1, &[0]), commit(0, &[])]);
    let mut it = repo.ancestor_iter();
    let mut seen: Vec<u8> = Vec::new();
    while let Some(c) = it.next() {
        seen.push(c.id[0]);
    }
    assert_eq!(seen, vec![2, 1, 0]);
    assert_eq!(it.next(), None);
}

#[test]
fn peer_id_equality_is_bitwise() {
    let a = PeerId { bytes: vec![1, 2, 3] };
    let b = PeerId { bytes: vec![1, 2, 3] };
    let c = PeerId { bytes: vec![1, 2] };
    assert!(a.equals(&b));
    assert!(!a.equals(&c));
}
