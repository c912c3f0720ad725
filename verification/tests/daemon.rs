use git_patch::PeerId;
use git_patch::api::protocol::{AddPeerError, IdError, Request, Response, UpdateError};
use git_patch::behaviour::{GitPatchRequest, GitPatchResponse, PatchResponseUpdateError};
use git_patch::daemon::{Action, ReactorEvent, Service, SwarmEvent, SwarmMessage};
use git_patch::database::Database;
use git_patch::git::Commit;
use git_patch::git::eager::Repository;

fn peer(b: u8) -> PeerId {
    PeerId { bytes: vec![b; 4] }
}

fn commit(id: u8, ancestors: &[u8]) -> Commit {
    Commit { id: vec![id], ancestor_ids: ancestors.iter().map(|a| vec![*a]).collect() }
}

/// A chain c3 -> c2 -> c1 -> c0 (tip first), each commit carrying the ids
/// of all its ancestors.
fn chain() -> Vec<Commit> {
    vec![commit(3, &[2, 1, 0]), commit(2, &[1, 0]), commit(1, &[0]), commit(0, &[])]
}

fn service_with(database: Database, history: Vec<Commit>) -> Service {
    Service::new(peer(0xAA), database, Repository::new(history))
}

fn service() -> Service {
    service_with(Database::new(), chain())
}

fn api(client: u16, request: Request) -> ReactorEvent {
    ReactorEvent::Api { client, request }
}

/// The daemon starts and shuts down cleanly: the shutdown is acknowledged
/// before the loop stops serving.
#[test]
fn can_run_daemon() {
    let mut service = service();
    assert!(service.keep_serving);
    let a = service.step(api(0, Request::Shutdown));
    assert_eq!(
        a,
        Action::RespondApi { client: 0, response: Response::Shutdown(Ok(())) }
    );
    assert!(!service.keep_serving);
}

#[test]
fn get_own_peer_id() {
    let keypair = libp2p::identity::Keypair::generate_ed25519();
    let peer_id = keypair.public().to_peer_id();
    let local = PeerId { bytes: peer_id.to_bytes() };
    let mut service = Service::new(local, Database::new(), Repository::new(chain()));
    let a = service.step(api(0, Request::Id { nickname: None }));
    match a {
        Action::RespondApi { client: 0, response: Response::Id(Ok(p)) } => {
            assert_eq!(p.bytes, peer_id.to_bytes());
        }
        other => panic!("expected own id, got {other:?}"),
    }
}

#[test]
fn get_peer_id_by_nickname() {
    let mut service = service();
    let a = service.step(api(
        0,
        Request::AddPeer { peer_id: peer(1), nickname: "A".to_owned() },
    ));
    assert_eq!(
        a,
        Action::RespondApi { client: 0, response: Response::AddPeer(Ok(())) }
    );
    let a = service.step(api(0, Request::Id { nickname: Some("A".to_owned()) }));
    match a {
        Action::RespondApi { client: 0, response: Response::Id(Ok(p)) } => {
            assert_eq!(p, peer(1));
        }
        other => panic!("expected peer id, got {other:?}"),
    }
}

#[test]
fn get_peer_id_by_nickname_with_unknown_nickname_fails() {
    let mut service = service();
    let a = service.step(api(0, Request::Id { nickname: Some("A".to_owned()) }));
    assert_eq!(
        a,
        Action::RespondApi {
            client: 0,
            response: Response::Id(Err(IdError::UnknownNickname)),
        }
    );
}

#[test]
fn duplicate_nickname_is_rejected() {
    let mut service = service();
    service.step(api(0, Request::AddPeer { peer_id: peer(1), nickname: "alice".to_owned() }));
    let a = service.step(api(
        0,
        Request::AddPeer { peer_id: peer(2), nickname: "alice".to_owned() },
    ));
    assert_eq!(
        a,
        Action::RespondApi {
            client: 0,
            response: Response::AddPeer(Err(AddPeerError::NicknameAlreadyExists)),
        }
    );
    // the original binding still stands
    let a = service.step(api(0, Request::Id { nickname: Some("alice".to_owned()) }));
    match a {
        Action::RespondApi { response: Response::Id(Ok(p)), .. } => assert_eq!(p, peer(1)),
        other => panic!("expected peer id, got {other:?}"),
    }
}

/// Two daemons register each other and resolve each other's nicknames.
#[test]
fn two_daemons_resolve_each_other() {
    let pa = peer(0xA1);
    let pb = peer(0xB1);
    let mut a = Service::new(pa.clone(), Database::new(), Repository::new(chain()));
    let mut b = Service::new(pb.clone(), Database::new(), Repository::new(chain()));
    a.step(api(0, Request::AddPeer { peer_id: pb.clone(), nickname: "B".to_owned() }));
    b.step(api(0, Request::AddPeer { peer_id: pa.clone(), nickname: "A".to_owned() }));
    match a.step(api(0, Request::Id { nickname: Some("B".to_owned()) })) {
        Action::RespondApi { response: Response::Id(Ok(p)), .. } => assert_eq!(p, pb),
        other => panic!("expected peer id, got {other:?}"),
    }
    match b.step(api(0, Request::Id { nickname: Some("A".to_owned()) })) {
        Action::RespondApi { response: Response::Id(Ok(p)), .. } => assert_eq!(p, pa),
        other => panic!("expected peer id, got {other:?}"),
    }
}

/// An update to an unknown peer is rejected and nothing reaches the swarm.
#[test]
fn update_to_unknown_peer() {
    let mut service = service();
    let a = service.step(api(0, Request::Update { peer: peer(9) }));
    assert_eq!(
        a,
        Action::RespondApi {
            client: 0,
            response: Response::Update(Err(UpdateError::UnknownPeerId)),
        }
    );
}

/// Without a known common ancestor the update path runs from the tip all
/// the way down to the repository root, inclusive.
#[test]
fn update_path_reaches_root() {
    let mut service = service();
    service.step(api(0, Request::AddPeer { peer_id: peer(1), nickname: "A".to_owned() }));
    let a = service.step(api(7, Request::Update { peer: peer(1) }));
    match a {
        Action::SendUpdateRequest { peer: p, path, client } => {
            assert_eq!(p, peer(1));
            assert_eq!(client, 7);
            let ids: Vec<u8> = path.iter().map(|c| c.id[0]).collect();
            assert_eq!(ids, vec![3, 2, 1, 0]);
        }
        other => panic!("expected update request, got {other:?}"),
    }
}

/// With a known common ancestor the path stops there, anchor inclusive,
/// and is never empty.
#[test]
fn update_path_stops_at_known_ancestor() {
    let mut database = Database::new();
    database.add_peer(peer(1), "A".to_owned()).unwrap();
    database.entries[0].mrca = Some(commit(1, &[0]));
    let mut service = service_with(database, chain());
    let a = service.step(api(3, Request::Update { peer: peer(1) }));
    match a {
        Action::SendUpdateRequest { path, .. } => {
            let ids: Vec<u8> = path.iter().map(|c| c.id[0]).collect();
            assert_eq!(ids, vec![3, 2, 1]);
            assert!(path.len() >= 1);
        }
        other => panic!("expected update request, got {other:?}"),
    }
}

/// The reply to a dispatched update is routed back to the client that
/// asked, and the correlation entry is consumed by the first reply.
#[test]
fn update_reply_routed_then_duplicate_dropped() {
    let mut service = service();
    service.step(api(0, Request::AddPeer { peer_id: peer(1), nickname: "A".to_owned() }));
    let a = service.step(api(5, Request::Update { peer: peer(1) }));
    assert!(matches!(a, Action::SendUpdateRequest { .. }));
    service.register_pending(42, 5);
    let reply = SwarmEvent::Message {
        peer: peer(1),
        message: SwarmMessage::Response {
            request_id: 42,
            response: GitPatchResponse::Update(Ok(commit(1, &[0]))),
        },
    };
    let a = service.step(ReactorEvent::Swarm { event: reply });
    assert_eq!(
        a,
        Action::RespondApi { client: 5, response: Response::Update(Ok(())) }
    );
    // the same reply again is a duplicate: dropped without effect
    let reply = SwarmEvent::Message {
        peer: peer(1),
        message: SwarmMessage::Response {
            request_id: 42,
            response: GitPatchResponse::Update(Ok(commit(1, &[0]))),
        },
    };
    let a = service.step(ReactorEvent::Swarm { event: reply });
    assert_eq!(a, Action::Nothing);
}

/// A reply whose request id was never recorded changes nothing.
#[test]
fn stale_reply_changes_nothing() {
    let mut service = service();
    service.step(api(0, Request::AddPeer { peer_id: peer(1), nickname: "A".to_owned() }));
    let entries_before = service.database.entries.len();
    let reply = SwarmEvent::Message {
        peer: peer(1),
        message: SwarmMessage::Response {
            request_id: 999,
            response: GitPatchResponse::Update(Ok(commit(0, &[]))),
        },
    };
    let a = service.step(ReactorEvent::Swarm { event: reply });
    assert_eq!(a, Action::Nothing);
    assert_eq!(service.database.entries.len(), entries_before);
    assert!(service.pending_update_requests.entries.is_empty());
    assert!(service.keep_serving);
}

/// Messages from a sender outside the peer store are dropped whole.
#[test]
fn unknown_sender_is_gated() {
    let mut service = service();
    service.register_pending(42, 5);
    let reply = SwarmEvent::Message {
        peer: peer(9),
        message: SwarmMessage::Response {
            request_id: 42,
            response: GitPatchResponse::Update(Ok(commit(0, &[]))),
        },
    };
    let a = service.step(ReactorEvent::Swarm { event: reply });
    assert_eq!(a, Action::Nothing);
    // even the awaited entry stays: the stranger's reply did not consume it
    assert_eq!(service.pending_update_requests.entries, vec![(42, 5)]);
}

/// A request from a sender outside the peer store draws no reply at all.
#[test]
fn unknown_sender_request_is_gated() {
    let mut service = service();
    let a = service.step(ReactorEvent::Swarm {
        event: SwarmEvent::Message {
            peer: peer(9),
            message: SwarmMessage::Request {
                request: GitPatchRequest::Update { path: vec![commit(3, &[])] },
            },
        },
    });
    assert_eq!(a, Action::Nothing);
}

/// Discovery reports change no state and draw no reply.
#[test]
fn discovery_is_inert() {
    let mut service = service();
    let a = service.step(ReactorEvent::Swarm {
        event: SwarmEvent::Discovered { peers: vec![peer(1), peer(2)] },
    });
    assert_eq!(a, Action::Nothing);
    assert!(service.database.entries.is_empty());
}

/// After a shutdown is accepted no further event draws a response.
#[test]
fn shutdown_is_final() {
    let mut service = service();
    service.step(api(0, Request::AddPeer { peer_id: peer(1), nickname: "A".to_owned() }));
    service.step(api(0, Request::Shutdown));
    let a = service.step(api(0, Request::Id { nickname: None }));
    assert_eq!(a, Action::Nothing);
    let a = service.step(ReactorEvent::Swarm {
        event: SwarmEvent::Message {
            peer: peer(1),
            message: SwarmMessage::Request {
                request: GitPatchRequest::Update { path: vec![commit(0, &[])] },
            },
        },
    });
    assert_eq!(a, Action::Nothing);
}

/// An inbound update with an empty path is answered with `EmptyPath`.
#[test]
fn inbound_update_empty_path() {
    let mut service = service();
    service.step(api(0, Request::AddPeer { peer_id: peer(1), nickname: "A".to_owned() }));
    let a = service.step(ReactorEvent::Swarm {
        event: SwarmEvent::Message {
            peer: peer(1),
            message: SwarmMessage::Request {
                request: GitPatchRequest::Update { path: vec![] },
            },
        },
    });
    assert_eq!(
        a,
        Action::SendSwarmResponse {
            response: GitPatchResponse::Update(Err(PatchResponseUpdateError::EmptyPath)),
        }
    );
}

/// An inbound update whose path shares nothing with local history is
/// answered with `NoCommonAncestor`.
#[test]
fn inbound_update_no_common_ancestor() {
    let mut service = service();
    service.step(api(0, Request::AddPeer { peer_id: peer(1), nickname: "A".to_owned() }));
    let a = service.step(ReactorEvent::Swarm {
        event: SwarmEvent::Message {
            peer: peer(1),
            message: SwarmMessage::Request {
                request: GitPatchRequest::Update { path: vec![commit(9, &[8])] },
            },
        },
    });
    assert_eq!(
        a,
        Action::SendSwarmResponse {
            response: GitPatchResponse::Update(
                Err(PatchResponseUpdateError::NoCommonAncestor),
            ),
        }
    );
}

/// Of several local commits on the peer's path, the oldest match is
/// reported: it maximizes the common history.
#[test]
fn inbound_update_reports_oldest_match() {
    let mut service = service();
    service.step(api(0, Request::AddPeer { peer_id: peer(1), nickname: "A".to_owned() }));
    let a = service.step(ReactorEvent::Swarm {
        event: SwarmEvent::Message {
            peer: peer(1),
            message: SwarmMessage::Request {
                request: GitPatchRequest::Update {
                    path: vec![commit(2, &[]), commit(1, &[])],
                },
            },
        },
    });
    match a {
        Action::SendSwarmResponse { response: GitPatchResponse::Update(Ok(c)) } => {
            assert_eq!(c.id, vec![1]);
        }
        other => panic!("expected oldest match, got {other:?}"),
    }
}

/// A local commit that is an ancestor of the peer's tip qualifies even
/// when it does not appear on the path itself.
#[test]
fn inbound_update_matches_by_ancestry() {
    let mut service = service();
    service.step(api(0, Request::AddPeer { peer_id: peer(1), nickname: "A".to_owned() }));
    // the peer's tip 9 descends from local commit 0 but shares no path entry
    let a = service.step(ReactorEvent::Swarm {
        event: SwarmEvent::Message {
            peer: peer(1),
            message: SwarmMessage::Request {
                request: GitPatchRequest::Update { path: vec![commit(9, &[8, 0])] },
            },
        },
    });
    match a {
        Action::SendSwarmResponse { response: GitPatchResponse::Update(Ok(c)) } => {
            assert_eq!(c.id, vec![0]);
        }
        other => panic!("expected ancestor match, got {other:?}"),
    }
}

/// A `Patch` request is forwarded to the peer as the dispatch table says.
#[test]
fn patch_request_is_forwarded() {
    let mut service = service();
    let a = service.step(api(0, Request::Patch { peer: peer(4), commit_id: vec![1, 2] }));
    assert_eq!(a, Action::SendPatchRequest { peer: peer(4) });
}
