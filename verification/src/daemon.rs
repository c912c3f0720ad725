//! The reactor: a single-threaded event loop core that services local API
//! requests and swarm events, correlates in-flight update requests to the
//! clients that issued them, and decides every state transition.
//!
//! The runner that owns the transports feeds events in and performs the
//! returned [`Action`]; everything the daemon decides is decided here.

use vstd::prelude::*;

use crate::PeerId;
use crate::api::ClientId;
use crate::api::protocol::{AddPeerError, IdError, Request, Response, UpdateError};
use crate::api::protocol::response_matches;
use crate::behaviour::{GitPatchRequest, GitPatchResponse, PatchResponseUpdateError};
use crate::database::{Database, mrca_lookup};
use crate::git::{Commit, bytes_eq, commit_ancestor_of, commit_eq, commit_ids, commit_in};
use crate::git::Repository as RepositoryTrait;
use crate::git::eager::Repository;

verus! {

/// Identifies an outbound swarm request within one daemon run; the swarm
/// front hands it out when the request is dispatched and never reuses it.
pub type RequestId = u64;

/// The correlation table: which client awaits the reply to each in-flight
/// update request.  An entry exists exactly while a reply is awaited.
#[derive(Debug, PartialEq)]
pub struct PendingUpdates {
    pub entries: Vec<(RequestId, ClientId)>,
}

impl PendingUpdates {
    /// Each in-flight request id is recorded at most once.
    pub open spec fn wf(self) -> bool {
        forall|i: int, j: int|
            0 <= i < j < self.entries@.len() ==> self.entries@[i].0 != self.entries@[j].0
    }

    /// Whether a client is still awaiting the reply to `request_id`.
    pub open spec fn has_request(self, request_id: RequestId) -> bool {
        exists|i: int|
            0 <= i < self.entries@.len() && #[trigger] self.entries@[i].0 == request_id
    }

    /// The position of `request_id` in the table (meaningful only when the
    /// table is well formed and holds the id, which pins the entry).
    pub open spec fn rid_index(self, request_id: RequestId) -> int {
        choose|i: int|
            0 <= i < self.entries@.len() && #[trigger] self.entries@[i].0 == request_id
    }

    /// The client awaiting the reply to `request_id`.
    pub open spec fn client_of(self, request_id: RequestId) -> ClientId {
        self.entries@[self.rid_index(request_id)].1
    }

    pub fn new() -> (t: Self)
        ensures
            t.wf(),
            t.entries@.len() == 0,
    {
        PendingUpdates { entries: Vec::new() }
    }

    /// Whether `request_id` is still awaiting its reply.
    pub fn contains(&self, request_id: RequestId) -> (r: bool)
        ensures
            r == self.has_request(request_id),
    {
        let mut i: usize = 0;
        while i < self.entries.len()
            invariant
                i <= self.entries@.len(),
                forall|j: int| 0 <= j < i ==> #[trigger] self.entries@[j].0 != request_id,
            decreases self.entries@.len() - i,
        {
            if self.entries[i].0 == request_id {
                return true;
            }
            i = i + 1;
        }
        false
    }

    /// Record that `client` awaits the reply to `request_id`.  Request ids
    /// are unique within a run, so the id cannot already be present.
    pub fn insert(&mut self, request_id: RequestId, client: ClientId)
        requires
            old(self).wf(),
            !old(self).has_request(request_id),
        ensures
            final(self).wf(),
            final(self).entries@ == old(self).entries@.push((request_id, client)),
    {
        self.entries.push((request_id, client));
    }

    /// Remove the entry for `request_id` and return its client, or `None`
    /// for a request id that is not awaited (a stale or duplicate reply).
    pub fn remove(&mut self, request_id: RequestId) -> (r: Option<ClientId>)
        requires
            old(self).wf(),
        ensures
            final(self).wf(),
            !old(self).has_request(request_id) ==> {
                &&& r is None
                &&& *final(self) == *old(self)
            },
            old(self).has_request(request_id) ==> {
                &&& r == Some(old(self).client_of(request_id))
                &&& final(self).entries@ == old(self).entries@.remove(
                    old(self).rid_index(request_id),
                )
            },
    {
        let mut found: Option<usize> = None;
        let mut i: usize = 0;
        while i < self.entries.len()
            invariant
                i <= self.entries@.len(),
                *self == *old(self),
                match found {
                    Option::None => forall|j: int|
                        0 <= j < i ==> #[trigger] self.entries@[j].0 != request_id,
                    Option::Some(k) => 0 <= k < i && self.entries@[k as int].0 == request_id,
                },
            decreases self.entries@.len() - i,
        {
            if found.is_none() && self.entries[i].0 == request_id {
                found = Some(i);
            }
            i = i + 1;
        }
        match found {
            Option::None => None,
            Option::Some(k) => {
                proof {
                    assert(old(self).has_request(request_id));
                    assert(old(self).rid_index(request_id) == k as int) by {
                        let ri = old(self).rid_index(request_id);
                        assert(0 <= ri < old(self).entries@.len()
                            && old(self).entries@[ri].0 == request_id);
                    }
                }
                let client = self.entries[k].1;
                self.entries.remove(k);
                proof {
                    let s0 = old(self).entries@;
                    assert forall|p: int, q: int|
                        0 <= p < q < self.entries@.len()
                            implies self.entries@[p].0 != self.entries@[q].0 by {
                        assert(self.entries@[p] == if p < k as int { s0[p] } else { s0[p + 1] });
                        assert(self.entries@[q] == if q < k as int { s0[q] } else { s0[q + 1] });
                    }
                }
                Some(client)
            },
        }
    }
}

/// The reply to a registered request is routed to the client that issued
/// it: registering a fresh request id for a client makes that client, and
/// no other, the one its reply is addressed to.
pub proof fn lemma_registered_client_routed(
    pre: PendingUpdates,
    post: PendingUpdates,
    request_id: RequestId,
    client: ClientId,
)
    requires
        pre.wf(),
        !pre.has_request(request_id),
        post.entries@ == pre.entries@.push((request_id, client)),
    ensures
        post.has_request(request_id),
        post.client_of(request_id) == client,
{
    let n = pre.entries@.len() as int;
    assert(post.entries@[n].0 == request_id);
    let ri = post.rid_index(request_id);
    assert(0 <= ri < post.entries@.len() && post.entries@[ri].0 == request_id);
    assert(ri == n) by {
        if ri < n {
            assert(pre.entries@[ri].0 == request_id);
        }
    }
}

/// Only the first reply to a request is acted upon: once the entry for
/// `request_id` is removed, the id is no longer awaited, so a duplicate
/// reply finds no entry and is dropped.
pub proof fn lemma_duplicate_reply_dropped(
    pre: PendingUpdates,
    post: PendingUpdates,
    request_id: RequestId,
)
    requires
        pre.wf(),
        pre.has_request(request_id),
        post.entries@ == pre.entries@.remove(pre.rid_index(request_id)),
    ensures
        !post.has_request(request_id),
{
    let ri = pre.rid_index(request_id);
    assert(0 <= ri < pre.entries@.len() && pre.entries@[ri].0 == request_id);
    assert forall|p: int| 0 <= p < post.entries@.len()
        implies #[trigger] post.entries@[p].0 != request_id by {
        assert(post.entries@[p] == if p < ri {
            pre.entries@[p]
        } else {
            pre.entries@[p + 1]
        });
    }
}

/// A message delivered by the swarm from a peer daemon.
#[derive(Debug, PartialEq)]
pub enum SwarmMessage {
    /// An inbound request; the transport holds the channel its reply goes
    /// out on.
    Request { request: GitPatchRequest },
    /// A reply to an outbound request this daemon dispatched earlier.
    Response { request_id: RequestId, response: GitPatchResponse },
}

/// An event observed on the swarm.
#[derive(Debug, PartialEq)]
pub enum SwarmEvent {
    /// A protocol message from `peer`.
    Message { peer: PeerId, message: SwarmMessage },
    /// Local discovery reported new peers.
    Discovered { peers: Vec<PeerId> },
    /// A connection to `peer` was established at `address`.
    ConnectionEstablished { peer: PeerId, address: String },
    /// The swarm began listening on `address`.
    NewListenAddr { address: String },
    /// Any other transport event; the reactor ignores it.
    Other,
}

/// One of the two event sources the reactor multiplexes.
#[derive(Debug, PartialEq)]
pub enum ReactorEvent {
    Api { client: ClientId, request: Request },
    Swarm { event: SwarmEvent },
}

/// What the runner must perform after a reactor step.
#[derive(Debug, PartialEq)]
pub enum Action {
    /// Nothing to perform.
    Nothing,
    /// Deliver `response` to the local client `client`.
    RespondApi { client: ClientId, response: Response },
    /// Dispatch `SwarmRequest::Update` carrying `path` to `peer`, then
    /// register the request id the swarm returns for `client` with
    /// [`Service::register_pending`].
    SendUpdateRequest { peer: PeerId, path: Vec<Commit>, client: ClientId },
    /// Forward `SwarmRequest::Patch` to `peer`.
    SendPatchRequest { peer: PeerId },
    /// Reply on the channel of the inbound request just handled.
    SendSwarmResponse { response: GitPatchResponse },
}

/// Whether `c` ties the peer's path to local history: it appears in the
/// path, or is an ancestor of the path's first (newest) commit.
pub open spec fn update_match(c: Commit, path: Seq<Commit>) -> bool {
    commit_in(c, path) || (path.len() > 0 && commit_ancestor_of(c, path[0]))
}

/// The last index below `n` of a local commit matching the peer's path.
/// Iteration is tip first, so the last match is the oldest qualifying
/// commit — the one that maximizes the common history reported.
pub open spec fn last_match(history: Seq<Commit>, path: Seq<Commit>, n: int) -> Option<int>
    decreases n,
{
    if n <= 0 {
        None
    } else if update_match(history[n - 1], path) {
        Some(n - 1)
    } else {
        last_match(history, path, n - 1)
    }
}

/// `last_match` names the oldest qualifying commit, and `None` means none
/// qualifies.
pub proof fn lemma_last_match(history: Seq<Commit>, path: Seq<Commit>, n: int)
    requires
        0 <= n <= history.len(),
    ensures
        match last_match(history, path, n) {
            Option::Some(j) => {
                &&& 0 <= j < n
                &&& update_match(history[j], path)
                &&& forall|i: int| j < i < n ==> !update_match(#[trigger] history[i], path)
            },
            Option::None => forall|i: int| 0 <= i < n ==> !update_match(#[trigger] history[i], path),
        },
    decreases n,
{
    if n > 0 {
        lemma_last_match(history, path, n - 1);
    }
}

/// The number of leading commits of `h` whose id differs from `id` (all of
/// `h.len()` when no commit carries `id`).
pub open spec fn cut_len(h: Seq<Commit>, id: Seq<u8>) -> int
    decreases h.len(),
{
    if h.len() == 0 {
        0
    } else if h[0].id@ == id {
        0
    } else {
        1 + cut_len(h.drop_first(), id)
    }
}

proof fn lemma_cut_len_at(h: Seq<Commit>, id: Seq<u8>, i: int)
    requires
        0 <= i <= h.len(),
        forall|j: int| 0 <= j < i ==> (#[trigger] h[j].id@) != id,
        i < h.len() ==> h[i].id@ == id,
    ensures
        cut_len(h, id) == i,
    decreases i,
{
    if i == 0 {
    } else {
        assert(h[0].id@ != id);
        lemma_cut_len_at(h.drop_first(), id, i - 1);
    }
}

/// The anchor of an outbound update to `peer`: the most recent common
/// ancestor the store knows, or the repository root.
pub open spec fn anchor_id(s: Service, peer: Seq<u8>) -> Seq<u8> {
    match mrca_lookup(s.database.entries@, peer) {
        Option::Some(c) => c.id@,
        Option::None => s.repository.history@.last().id@,
    }
}

/// What an `Update` request from a local client produces: an error for an
/// unknown peer, else an outbound swarm request whose path runs tip first
/// down to the anchor, inclusive — never empty.
pub open spec fn update_post(s: Service, peer: PeerId, client: ClientId, a: Action) -> bool {
    if !s.database.has_peer(peer.bytes@) {
        a == Action::RespondApi {
            client,
            response: Response::Update(Err(UpdateError::UnknownPeerId)),
        }
    } else {
        let h = s.repository.history@;
        let anchor = anchor_id(s, peer.bytes@);
        let k = cut_len(h, anchor);
        &&& a matches Action::SendUpdateRequest { peer: p, path, client: c } && {
            &&& p.bytes@ == peer.bytes@
            &&& c == client
            &&& path@.len() == k + 1
            &&& path@.len() >= 1
            &&& commit_ids(path@) == commit_ids(h.take(k)).push(anchor)
        }
    }
}

/// What a `Patch` request produces: it is forwarded to the peer; its
/// further semantics are not yet fixed.
pub open spec fn patch_post(peer: PeerId, a: Action) -> bool {
    a matches Action::SendPatchRequest { peer: p } && p.bytes@ == peer.bytes@
}

/// What an `Id` request produces: the peer bound to the nickname, the
/// daemon's own id when no nickname is given, or `UnknownNickname`.
pub open spec fn id_post(s: Service, nickname: Option<String>, client: ClientId, a: Action) -> bool {
    match nickname {
        Option::Some(n) => if s.database.has_nickname(n@) {
            a matches Action::RespondApi { client: c, response } && {
                &&& c == client
                &&& response matches Response::Id(r) && r matches Ok(p) && p.bytes@
                    == s.database.peer_of(n@)
            }
        } else {
            a == Action::RespondApi { client, response: Response::Id(Err(IdError::UnknownNickname)) }
        },
        Option::None => a matches Action::RespondApi { client: c, response } && {
            &&& c == client
            &&& response matches Response::Id(r) && r matches Ok(p) && p.bytes@
                == s.local_peer_id.bytes@
        },
    }
}

/// What an `AddPeer` request produces: the binding is added unless the
/// nickname is taken, and the client is told which.
pub open spec fn add_peer_post(
    pre: Service,
    post: Service,
    client: ClientId,
    peer_id: PeerId,
    nickname: String,
    a: Action,
) -> bool {
    &&& post.local_peer_id == pre.local_peer_id
    &&& post.repository == pre.repository
    &&& post.pending_update_requests == pre.pending_update_requests
    &&& post.keep_serving == pre.keep_serving
    &&& if pre.database.has_nickname(nickname@) {
        &&& post.database == pre.database
        &&& a == Action::RespondApi {
            client,
            response: Response::AddPeer(Err(AddPeerError::NicknameAlreadyExists)),
        }
    } else {
        &&& post.database.entries@ == pre.database.entries@.push(
            crate::database::PeerEntry { nickname, peer: peer_id, mrca: Option::None },
        )
        &&& a == Action::RespondApi { client, response: Response::AddPeer(Ok(())) }
    }
}

/// What `Shutdown` produces: the reactor stops serving and the client is
/// told so before the loop exits.
pub open spec fn shutdown_post(pre: Service, post: Service, client: ClientId, a: Action) -> bool {
    &&& post.local_peer_id == pre.local_peer_id
    &&& post.database == pre.database
    &&& post.repository == pre.repository
    &&& post.pending_update_requests == pre.pending_update_requests
    &&& !post.keep_serving
    &&& a == Action::RespondApi { client, response: Response::Shutdown(Ok(())) }
}

/// What an inbound swarm `Update` request produces: an `EmptyPath` error,
/// the oldest local commit that ties to the peer's path, or
/// `NoCommonAncestor`.
pub open spec fn update_request_post(s: Service, path: Seq<Commit>, resp: GitPatchResponse) -> bool {
    let h = s.repository.history@;
    if path.len() == 0 {
        resp == GitPatchResponse::Update(Err(PatchResponseUpdateError::EmptyPath))
    } else {
        match last_match(h, path, h.len() as int) {
            Option::Some(j) => resp matches GitPatchResponse::Update(r) && r matches Ok(c)
                && commit_eq(c, h[j]),
            Option::None => resp == GitPatchResponse::Update(
                Err(PatchResponseUpdateError::NoCommonAncestor),
            ),
        }
    }
}

/// What an inbound swarm `Update` response produces: the awaiting client is
/// told the update completed and the correlation entry is removed; a stale
/// reply — one whose request id is not awaited — changes nothing.
pub open spec fn update_response_post(
    pre: Service,
    post: Service,
    request_id: RequestId,
    a: Action,
) -> bool {
    if !pre.pending_update_requests.has_request(request_id) {
        &&& post == pre
        &&& a == Action::Nothing
    } else {
        &&& post.local_peer_id == pre.local_peer_id
        &&& post.database == pre.database
        &&& post.repository == pre.repository
        &&& post.keep_serving == pre.keep_serving
        &&& post.pending_update_requests.entries@ == pre.pending_update_requests.entries@.remove(
            pre.pending_update_requests.rid_index(request_id),
        )
        &&& a == Action::RespondApi {
            client: pre.pending_update_requests.client_of(request_id),
            response: Response::Update(Ok(())),
        }
    }
}

/// The daemon state the reactor owns: who we are, whom we know, the local
/// history, the in-flight update requests, and whether we keep serving.
#[derive(Debug, PartialEq)]
pub struct Service {
    pub local_peer_id: PeerId,
    pub database: Database,
    pub repository: Repository,
    pub pending_update_requests: PendingUpdates,
    pub keep_serving: bool,
}

impl Service {
    pub open spec fn wf(self) -> bool {
        &&& self.database.wf()
        &&& self.repository.wf()
        &&& self.pending_update_requests.wf()
    }

    /// A ready-to-run service around the given collaborators.
    pub fn new(local_peer_id: PeerId, database: Database, repository: Repository) -> (s: Service)
        requires
            database.wf(),
            repository.wf(),
        ensures
            s.wf(),
            s.local_peer_id == local_peer_id,
            s.database == database,
            s.repository == repository,
            s.pending_update_requests.entries@.len() == 0,
            s.keep_serving,
    {
        Service {
            local_peer_id,
            database,
            repository,
            pending_update_requests: PendingUpdates::new(),
            keep_serving: true,
        }
    }

    /// Handle `Update { peer }` from a local client: reject an unknown
    /// peer, else build the ancestor path down to the anchor and have the
    /// runner dispatch it.
    pub fn update(&self, peer: &PeerId, client: ClientId) -> (a: Action)
        requires
            self.wf(),
        ensures
            update_post(*self, *peer, client, a),
    {
        if !self.database.contains(peer) {
            return Action::RespondApi {
                client,
                response: Response::Update(Err(UpdateError::UnknownPeerId)),
            };
        }
        let anchor: Commit = match self.database.get_most_recent_common_ancestor(peer) {
            Option::Some(c) => c,
            Option::None => self.repository.root(),
        };
        assert(anchor.id@ == anchor_id(*self, peer.bytes@));
        let ghost h = self.repository.history@;
        let mut path: Vec<Commit> = Vec::new();
        let mut i: usize = 0;
        while i < self.repository.history.len() && !bytes_eq(
            &self.repository.history[i].id,
            &anchor.id,
        )
            invariant
                self.wf(),
                i <= h.len(),
                h == self.repository.history@,
                anchor.id@ == anchor_id(*self, peer.bytes@),
                forall|j: int| 0 <= j < i ==> (#[trigger] h[j].id@) != anchor.id@,
                path@.len() == i,
                forall|j: int| 0 <= j < i ==> (#[trigger] path@[j].id@) == h[j].id@,
            decreases h.len() - i,
        {
            path.push(self.repository.history[i].clone());
            i = i + 1;
        }
        proof {
            lemma_cut_len_at(h, anchor.id@, i as int);
        }
        let ghost k = cut_len(h, anchor.id@);
        path.push(anchor);
        proof {
            assert(commit_ids(path@) =~= commit_ids(h.take(k)).push(anchor_id(
                *self,
                peer.bytes@,
            ))) by {
                assert(forall|j: int|
                    0 <= j < k ==> (#[trigger] commit_ids(h.take(k))[j]) == h[j].id@);
            }
        }
        Action::SendUpdateRequest { peer: peer.clone(), path, client }
    }

    /// Handle `Patch` from a local client: forward it to the peer.  The
    /// patch exchange itself is not yet specified.
    pub fn patch(&self, peer: &PeerId, _commit_id: &Vec<u8>) -> (a: Action)
        ensures
            patch_post(*peer, a),
    {
        Action::SendPatchRequest { peer: peer.clone() }
    }

    /// Handle an inbound swarm `Update` request: report the oldest local
    /// commit that appears in the peer's path or precedes its tip.
    pub fn gitpatch_update_request(&self, peer_path: &Vec<Commit>) -> (resp: GitPatchResponse)
        requires
            self.wf(),
        ensures
            update_request_post(*self, peer_path@, resp),
    {
        if peer_path.len() == 0 {
            return GitPatchResponse::Update(Err(PatchResponseUpdateError::EmptyPath));
        }
        let ghost h = self.repository.history@;
        let mut best: Option<Commit> = None;
        let mut i: usize = 0;
        while i < self.repository.history.len()
            invariant
                self.wf(),
                i <= h.len(),
                h == self.repository.history@,
                peer_path@.len() > 0,
                match (best, last_match(h, peer_path@, i as int)) {
                    (Option::None, Option::None) => true,
                    (Option::Some(c), Option::Some(j)) => commit_eq(c, h[j]),
                    _ => false,
                },
            decreases h.len() - i,
        {
            let commit = &self.repository.history[i];
            if commit.is_in(peer_path) || commit.is_ancestor_of(&peer_path[0]) {
                best = Some(commit.clone());
            }
            i = i + 1;
        }
        match best {
            Option::Some(c) => GitPatchResponse::Update(Ok(c)),
            Option::None => GitPatchResponse::Update(Err(PatchResponseUpdateError::NoCommonAncestor)),
        }
    }

    /// Handle an inbound swarm `Update` response: route completion to the
    /// awaiting client; drop a stale reply.
    pub fn gitpatch_update_response(&mut self, request_id: RequestId) -> (a: Action)
        requires
            old(self).wf(),
        ensures
            final(self).wf(),
            update_response_post(*old(self), *final(self), request_id, a),
    {
        match self.pending_update_requests.remove(request_id) {
            Option::Some(client) => Action::RespondApi {
                client,
                response: Response::Update(Ok(())),
            },
            Option::None => Action::Nothing,
        }
    }

    /// Handle `Id { nickname }` from a local client.
    pub fn id(&self, nickname: Option<String>, client: ClientId) -> (a: Action)
        requires
            self.wf(),
        ensures
            id_post(*self, nickname, client, a),
    {
        let response = match &nickname {
            Option::Some(n) => match self.database.get_peer_id_from_nickname(n) {
                Option::Some(peer) => Response::Id(Ok(peer)),
                Option::None => Response::Id(Err(IdError::UnknownNickname)),
            },
            Option::None => Response::Id(Ok(self.local_peer_id.clone())),
        };
        Action::RespondApi { client, response }
    }

    /// Handle `AddPeer { peer_id, nickname }` from a local client.
    pub fn add_peer(&mut self, client: ClientId, peer_id: PeerId, nickname: String) -> (a: Action)
        requires
            old(self).wf(),
        ensures
            final(self).wf(),
            add_peer_post(*old(self), *final(self), client, peer_id, nickname, a),
    {
        let response = match self.database.add_peer(peer_id, nickname) {
            Ok(()) => Response::AddPeer(Ok(())),
            Err(e) => Response::AddPeer(Err(e)),
        };
        Action::RespondApi { client, response }
    }

    /// Handle `Shutdown` from a local client.
    pub fn shutdown(&mut self, client: ClientId) -> (a: Action)
        requires
            old(self).wf(),
        ensures
            final(self).wf(),
            shutdown_post(*old(self), *final(self), client, a),
    {
        self.keep_serving = false;
        Action::RespondApi { client, response: Response::Shutdown(Ok(())) }
    }

    /// After the runner dispatched the update request of a
    /// [`Action::SendUpdateRequest`], record the request id the swarm
    /// returned for the client that is awaiting the reply.  Request ids are
    /// unique within a run, so a fresh id is never already recorded.
    pub fn register_pending(&mut self, request_id: RequestId, client: ClientId)
        requires
            old(self).wf(),
            !old(self).pending_update_requests.has_request(request_id),
        ensures
            final(self).wf(),
            final(self).local_peer_id == old(self).local_peer_id,
            final(self).database == old(self).database,
            final(self).repository == old(self).repository,
            final(self).keep_serving == old(self).keep_serving,
            final(self).pending_update_requests.entries@
                == old(self).pending_update_requests.entries@.push((request_id, client)),
    {
        self.pending_update_requests.insert(request_id, client);
    }

    /// Dispatch one request from a local API client.
    pub fn handle_api_request(&mut self, client: ClientId, request: Request) -> (a: Action)
        requires
            old(self).wf(),
        ensures
            final(self).wf(),
            match request {
                Request::Update { peer } => *final(self) == *old(self) && update_post(
                    *old(self),
                    peer,
                    client,
                    a,
                ),
                Request::Patch { peer, commit_id: _ } => *final(self) == *old(self) && patch_post(
                    peer,
                    a,
                ),
                Request::Id { nickname } => *final(self) == *old(self) && id_post(
                    *old(self),
                    nickname,
                    client,
                    a,
                ),
                Request::Shutdown => shutdown_post(*old(self), *final(self), client, a),
                Request::AddPeer { peer_id, nickname } => add_peer_post(
                    *old(self),
                    *final(self),
                    client,
                    peer_id,
                    nickname,
                    a,
                ),
            },
            // every response goes to the requester and answers its request
            a matches Action::RespondApi { client: c, response } ==> c == client
                && response_matches(request, response),
            // an outbound update is correlated for the requester
            a matches Action::SendUpdateRequest { client: c, .. } ==> c == client,
    {
        match request {
            Request::Update { peer } => self.update(&peer, client),
            Request::Patch { peer, commit_id } => self.patch(&peer, &commit_id),
            Request::Id { nickname } => self.id(nickname, client),
            Request::Shutdown => self.shutdown(client),
            Request::AddPeer { peer_id, nickname } => self.add_peer(client, peer_id, nickname),
        }
    }

    /// Dispatch one swarm event.  Messages from peers outside the store are
    /// dropped whole: no state changes and nothing is sent.
    pub fn handle_swarm_event(&mut self, event: SwarmEvent) -> (a: Action)
        requires
            old(self).wf(),
        ensures
            final(self).wf(),
            // peer gate: an unknown sender changes nothing
            (event matches SwarmEvent::Message { peer, message } && !old(self).database.has_peer(
                peer.bytes@,
            )) ==> *final(self) == *old(self) && a == Action::Nothing,
            match event {
                SwarmEvent::Message { peer, message } => old(self).database.has_peer(peer.bytes@)
                    ==> match message {
                    SwarmMessage::Request { request } => *final(self) == *old(self) && match request {
                        GitPatchRequest::Update { path } => a matches Action::SendSwarmResponse {
                            response,
                        } && update_request_post(*old(self), path@, response),
                        GitPatchRequest::Patch => a == Action::Nothing,
                    },
                    SwarmMessage::Response { request_id, response } => match response {
                        GitPatchResponse::Update(_) => update_response_post(
                            *old(self),
                            *final(self),
                            request_id,
                            a,
                        ),
                        GitPatchResponse::Patch => *final(self) == *old(self) && a
                            == Action::Nothing,
                    },
                },
                _ => *final(self) == *old(self) && a == Action::Nothing,
            },
    {
        match event {
            SwarmEvent::Message { peer, message } => {
                if self.database.contains(&peer) {
                    match message {
                        SwarmMessage::Request { request } => match request {
                            GitPatchRequest::Update { path } => {
                                let response = self.gitpatch_update_request(&path);
                                Action::SendSwarmResponse { response }
                            },
                            // the patch exchange has no handler yet
                            GitPatchRequest::Patch => Action::Nothing,
                        },
                        SwarmMessage::Response { request_id, response } => match response {
                            GitPatchResponse::Update(_) => self.gitpatch_update_response(
                                request_id,
                            ),
                            GitPatchResponse::Patch => Action::Nothing,
                        },
                    }
                } else {
                    // dropping message from unknown peer
                    Action::Nothing
                }
            },
            SwarmEvent::Discovered { peers: _ } => Action::Nothing,
            SwarmEvent::ConnectionEstablished { .. } => Action::Nothing,
            SwarmEvent::NewListenAddr { .. } => Action::Nothing,
            SwarmEvent::Other => Action::Nothing,
        }
    }

    /// One turn of the reactor loop: service exactly one event from either
    /// source.  Once `Shutdown` has been accepted the reactor services no
    /// further events: it neither changes state nor emits anything.
    pub fn step(&mut self, event: ReactorEvent) -> (a: Action)
        requires
            old(self).wf(),
        ensures
            final(self).wf(),
            // shutdown finality
            !old(self).keep_serving ==> *final(self) == *old(self) && a == Action::Nothing,
            old(self).keep_serving ==> match event {
                ReactorEvent::Api { client, request } => {
                    &&& match request {
                        Request::Update { peer } => *final(self) == *old(self) && update_post(
                            *old(self),
                            peer,
                            client,
                            a,
                        ),
                        Request::Patch { peer, commit_id: _ } => *final(self) == *old(self)
                            && patch_post(peer, a),
                        Request::Id { nickname } => *final(self) == *old(self) && id_post(
                            *old(self),
                            nickname,
                            client,
                            a,
                        ),
                        Request::Shutdown => shutdown_post(*old(self), *final(self), client, a),
                        Request::AddPeer { peer_id, nickname } => add_peer_post(
                            *old(self),
                            *final(self),
                            client,
                            peer_id,
                            nickname,
                            a,
                        ),
                    }
                    &&& (a matches Action::RespondApi { client: c, response } ==> c == client
                        && response_matches(request, response))
                },
                ReactorEvent::Swarm { event: e } => {
                    &&& ((e matches SwarmEvent::Message { peer, message }
                        && !old(self).database.has_peer(peer.bytes@)) ==> *final(self) == *old(self)
                        && a == Action::Nothing)
                    &&& match e {
                        SwarmEvent::Message { peer, message } => old(self).database.has_peer(
                            peer.bytes@,
                        ) ==> match message {
                            SwarmMessage::Request { request } => *final(self) == *old(self)
                                && match request {
                                GitPatchRequest::Update { path } => a matches
                                    Action::SendSwarmResponse { response } && update_request_post(
                                    *old(self),
                                    path@,
                                    response,
                                ),
                                GitPatchRequest::Patch => a == Action::Nothing,
                            },
                            SwarmMessage::Response { request_id, response } => match response {
                                GitPatchResponse::Update(_) => update_response_post(
                                    *old(self),
                                    *final(self),
                                    request_id,
                                    a,
                                ),
                                GitPatchResponse::Patch => *final(self) == *old(self) && a
                                    == Action::Nothing,
                            },
                        },
                        _ => *final(self) == *old(self) && a == Action::Nothing,
                    }
                },
            },
    {
        if !self.keep_serving {
            return Action::Nothing;
        }
        match event {
            ReactorEvent::Api { client, request } => self.handle_api_request(client, request),
            ReactorEvent::Swarm { event: e } => self.handle_swarm_event(e),
        }
    }
}

} // verus!
