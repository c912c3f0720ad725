//! The control-plane client seen from the daemon's side: a sink that
//! carries one response back to the caller that issued the request.

use vstd::prelude::*;

use crate::api::protocol::Response;

verus! {

/// A connected control-plane caller.  Each transport implements delivery
/// its own way; the reactor only ever hands a response over.
pub trait Client {
    fn send_response(&mut self, response: Response);
}

/// Errors a client transport could report.  No transport of this crate
/// produces one; the variant keeps the trait's error surface explicit.
#[derive(Debug, PartialEq)]
pub enum Error {
    Failed,
}

} // verus!
