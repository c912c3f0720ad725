use git_patch::api::{Server, ServerError};

/// No two clients of one run receive the same id.
#[test]
fn client_ids_are_unique() {
    let mut server = Server::new();
    let a = server.client().unwrap();
    let b = server.client().unwrap();
    let c = server.client().unwrap();
    assert_eq!((a, b, c), (0, 1, 2));
    assert_ne!(a, b);
    assert_ne!(b, c);
    assert_ne!(a, c);
}

/// The 65536th client cannot be registered: ids are never reused.
#[test]
fn client_id_overflow() {
    let mut server = Server::new();
    for expected in 0..u16::MAX {
        assert_eq!(server.client().unwrap(), expected);
    }
    assert_eq!(server.client(), Err(ServerError::ClientIdOverflow));
    // the registry is unchanged by the failed registration
    assert_eq!(server.client_ids.len(), u16::MAX as usize);
}
