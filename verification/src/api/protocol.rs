//! The control-plane protocol: requests a local client may issue and the
//! responses the daemon returns, one response variant per request variant.

use vstd::prelude::*;

use crate::PeerId;

verus! {

#[derive(Debug, PartialEq)]
pub enum Request {
    /// Sync metadata with peer
    Update { peer: PeerId },
    /// Request patch from peer, at a commit named by its object id
    Patch { peer: PeerId, commit_id: Vec<u8> },
    /// Show peer id
    /// If no peer nickname provided, show own peer id
    Id { nickname: Option<String> },
    /// Shut down the server
    Shutdown,
    /// Add a new peer with nickname
    AddPeer { peer_id: PeerId, nickname: String },
}

#[derive(Debug, PartialEq)]
pub enum Response {
    Update(Result<(), UpdateError>),
    Patch(Result<(), PatchError>),
    Id(Result<PeerId, IdError>),
    Shutdown(Result<(), ShutdownError>),
    AddPeer(Result<(), AddPeerError>),
}

#[derive(Debug, PartialEq)]
pub enum UpdateError {
    UnknownPeerId,
}

/// Errors a `Patch` request could report.  No handler of this daemon
/// produces one; the variant keeps the response shape uniform.
#[derive(Debug, PartialEq)]
pub enum PatchError {
    Failed,
}

/// Errors a `Shutdown` request could report.  No handler of this daemon
/// produces one; the variant keeps the response shape uniform.
#[derive(Debug, PartialEq)]
pub enum ShutdownError {
    Failed,
}

#[derive(Debug, PartialEq)]
pub enum IdError {
    UnknownNickname,
}

#[derive(Debug, PartialEq)]
pub enum AddPeerError {
    NicknameAlreadyExists,
}

/// The response answers the request: their variant tags agree.
pub open spec fn response_matches(req: Request, resp: Response) -> bool {
    match req {
        Request::Update { .. } => resp is Update,
        Request::Patch { .. } => resp is Patch,
        Request::Id { .. } => resp is Id,
        Request::Shutdown => resp is Shutdown,
        Request::AddPeer { .. } => resp is AddPeer,
    }
}

} // verus!
