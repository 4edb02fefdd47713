//! The value a strategy hands back for one request: a status code and a body.

use vstd::prelude::*;

verus! {

/// What the server sends back for a single request, before any wire framing:
/// the status code of the status line and the response body, byte for byte.
pub struct Response {
    pub status: u16,
    pub body: Vec<u8>,
}

impl Response {
    /// A response carrying only a status line and no body.
    pub fn status_only(status: u16) -> (r: Response)
        ensures
            r.status == status,
            r.body@ =~= Seq::<u8>::empty(),
    {
        Response { status, body: Vec::new() }
    }
}

} // verus!
