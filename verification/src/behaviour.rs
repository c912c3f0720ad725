//! The git-patch exchange protocol spoken between daemons: its negotiation
//! identifier and the request/response frames carried over the swarm.

use vstd::prelude::*;

use crate::git::Commit;

verus! {

/// The bytes negotiated on the wire for this protocol.
pub open spec fn protocol_id() -> Seq<char> {
    "/git-patch/0.1"@
}

/// Names the git-patch exchange protocol during substream negotiation.
#[derive(Debug, Clone)]
pub struct GitPatchExchangeProtocol;

impl GitPatchExchangeProtocol {
    /// The literal protocol identifier; a version bump changes it.
    pub fn protocol_name(&self) -> (r: &'static str)
        ensures
            r@ == protocol_id(),
    {
        "/git-patch/0.1"
    }
}

/// Marker for the frame codec of the exchange.  Reading and writing frames
/// is I/O and lives with the transport that owns the substreams.
#[derive(Debug, Clone)]
pub struct GitPatchExchangeCodec;

/// A request sent to a peer daemon.
#[derive(Debug, PartialEq)]
pub enum GitPatchRequest {
    /// The sender's ancestor path, tip first down to the anchor commit.
    Update { path: Vec<Commit> },
    /// Ask for a patch; its semantics are not yet fixed.
    Patch,
}

pub type UpdateResult = Result<Commit, PatchResponseUpdateError>;

/// A reply returned to a peer daemon.
#[derive(Debug, PartialEq)]
pub enum GitPatchResponse {
    Update(UpdateResult),
    Patch,
}

/// Why an inbound `Update` request was rejected.
#[derive(Debug, PartialEq)]
pub enum PatchResponseUpdateError {
    NoCommonAncestor,
    /// Request contained a path with no commit ids in it
    EmptyPath,
}

} // verus!
