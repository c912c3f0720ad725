//! The control-plane front: the request/response protocol spoken by local
//! API clients, and the assignment of client identifiers.

use vstd::prelude::*;

pub mod protocol;

verus! {

/// Names a connected control-plane client for the life of its connection.
pub type ClientId = u16;

#[derive(Debug, PartialEq)]
pub enum ServerError {
    ClientIdOverflow,
}

/// The client registry of an API server: which client ids have been handed
/// out, and the id the next client will receive.  The transport that carries
/// each client's requests and responses lives outside this registry.
pub struct Server {
    pub client_ids: Vec<ClientId>,
    pub last_client_id: ClientId,
}

impl Server {
    /// Ids are assigned monotonically from 0, so the registry holds exactly
    /// the ids below `last_client_id`, in order.
    pub open spec fn wf(self) -> bool {
        &&& self.client_ids@.len() == self.last_client_id as int
        &&& forall|i: int|
            0 <= i < self.client_ids@.len() ==> #[trigger] self.client_ids@[i] as int == i
    }

    pub fn new() -> (s: Self)
        ensures
            s.wf(),
            s.client_ids@.len() == 0,
    {
        Server { client_ids: Vec::new(), last_client_id: 0 }
    }

    /// The id for the next client, or `ClientIdOverflow` once ids run out.
    /// An id is never reused within a run.
    fn next_client_id(&mut self) -> (r: Result<ClientId, ServerError>)
        ensures
            old(self).last_client_id < u16::MAX ==> {
                &&& r == Ok::<ClientId, ServerError>(old(self).last_client_id)
                &&& final(self).last_client_id == old(self).last_client_id + 1
                &&& final(self).client_ids == old(self).client_ids
            },
            old(self).last_client_id == u16::MAX ==> {
                &&& r == Err::<ClientId, ServerError>(ServerError::ClientIdOverflow)
                &&& *final(self) == *old(self)
            },
    {
        if self.last_client_id < u16::MAX {
            self.last_client_id = self.last_client_id + 1;
            Ok(self.last_client_id - 1)
        } else {
            Err(ServerError::ClientIdOverflow)
        }
    }

    /// Register a new client and return its fresh id: one that no current
    /// client holds.
    pub fn client(&mut self) -> (r: Result<ClientId, ServerError>)
        requires
            old(self).wf(),
        ensures
            final(self).wf(),
            old(self).last_client_id < u16::MAX ==> {
                &&& r matches Ok(id) && id == old(self).last_client_id
                    && !old(self).client_ids@.contains(id)
                    && final(self).client_ids@ == old(self).client_ids@.push(id)
            },
            old(self).last_client_id == u16::MAX ==> {
                &&& r == Err::<ClientId, ServerError>(ServerError::ClientIdOverflow)
                &&& *final(self) == *old(self)
            },
    {
        let id = self.next_client_id()?;
        assert(forall|i: int|
            0 <= i < self.client_ids@.len() ==> #[trigger] self.client_ids@[i] != id);
        self.client_ids.push(id);
        Ok(id)
    }
}

/// No two distinct connected clients hold the same id.
pub proof fn lemma_client_ids_unique(s: Server)
    requires
        s.wf(),
    ensures
        forall|i: int, j: int|
            0 <= i < j < s.client_ids@.len() ==> s.client_ids@[i] != s.client_ids@[j],
{
}

} // verus!
