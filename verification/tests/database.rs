use git_patch::PeerId;
use git_patch::database::{Database, Error, check_database_path};
use git_patch::git::Commit;

fn peer(b: u8) -> PeerId {
    PeerId { bytes: vec![b; 4] }
}

#[test]
fn contains_after_add() {
    let mut db = Database::new();
    assert!(!db.contains(&peer(1)));
    db.add_peer(peer(1), "alice".to_owned()).unwrap();
    assert!(db.contains(&peer(1)));
    assert!(!db.contains(&peer(2)));
}

#[test]
fn nickname_resolves_to_peer() {
    let mut db = Database::new();
    db.add_peer(peer(1), "alice".to_owned()).unwrap();
    db.add_peer(peer(2), "bob".to_owned()).unwrap();
    assert_eq!(db.get_peer_id_from_nickname(&"bob".to_owned()), Some(peer(2)));
    assert_eq!(db.get_peer_id_from_nickname(&"carol".to_owned()), None);
}

#[test]
fn mrca_comes_from_first_binding() {
    let mut db = Database::new();
    db.add_peer(peer(1), "alice".to_owned()).unwrap();
    assert_eq!(db.get_most_recent_common_ancestor(&peer(1)), None);
    let anchor = Commit { id: vec![5], ancestor_ids: vec![] };
    db.entries[0].mrca = Some(anchor.clone());
    assert_eq!(db.get_most_recent_common_ancestor(&peer(1)), Some(anchor));
    assert_eq!(db.get_most_recent_common_ancestor(&peer(2)), None);
}

#[test]
fn db_path_yaml_is_accepted() {
    assert_eq!(check_database_path("some/dir/db.yaml"), Ok(()));
    assert_eq!(check_database_path("db.yaml"), Ok(()));
}

#[test]
fn db_path_without_extension_is_a_directory() {
    assert_eq!(check_database_path("some/dir"), Err(Error::IsDirectory));
    assert_eq!(check_database_path("a/.yaml"), Err(Error::IsDirectory));
}

#[test]
fn db_path_other_extension_is_unhandled() {
    assert_eq!(
        check_database_path("db.json"),
        Err(Error::UnhandledExtension("db.json".to_owned()))
    );
}
