//! Core of a peer-to-peer git-patch exchange daemon: protocol types, the
//! peer database, the repository model, and the reactor that multiplexes
//! API clients with the swarm.

use vstd::prelude::*;

pub mod api;
pub mod behaviour;
pub mod cli;
pub mod client;
pub mod config;
pub mod daemon;
pub mod database;
pub mod git;

verus! {

/// The identity of a peer, derived from an Ed25519 public key.  Held as its
/// canonical byte encoding; equality is bitwise.
#[derive(Debug, PartialEq)]
pub struct PeerId {
    pub bytes: Vec<u8>,
}

impl PeerId {
    /// Bitwise equality of peer identities.
    pub fn equals(&self, other: &PeerId) -> (r: bool)
        ensures
            r == (self.bytes@ == other.bytes@),
    {
        crate::git::bytes_eq(&self.bytes, &other.bytes)
    }
}

impl Clone for PeerId {
    /// A clone names the same peer.
    fn clone(&self) -> (r: Self)
        ensures
            r.bytes@ == self.bytes@,
    {
        PeerId { bytes: self.bytes.clone() }
    }
}

} // verus!
