//! The fixed-payload strategy: one immutable byte sequence, resolved once at
//! startup, answered verbatim with status 200 for every request.

use vstd::prelude::*;
use vstd::string::StrSliceExecFns;
use vstd::string::StringSliceAdditionalSpecFns;
use crate::response::Response;

verus! {

/// The status code every payload response carries.
pub const PAYLOAD_STATUS: u16 = 200;

/// An immutable response body, fixed before the server starts and never
/// changed afterwards.
pub struct Payload {
    bytes: Vec<u8>,
}

impl View for Payload {
    type V = Seq<u8>;

    closed spec fn view(&self) -> Seq<u8> {
        self.bytes@
    }
}

impl Payload {
    /// Capture a byte sequence as the payload, byte for byte.
    pub fn new(bytes: Vec<u8>) -> (p: Payload)
        ensures
            p@ == bytes@,
    {
        Payload { bytes }
    }

    /// Capture inline text as the payload: exactly its UTF-8 bytes.
    pub fn from_text(text: &str) -> (p: Payload)
        ensures
            p@ == text.spec_bytes(),
    {
        Payload { bytes: text.as_bytes_vec() }
    }

    /// How many bytes every response body will carry.
    pub fn len(&self) -> (n: usize)
        ensures
            n == self@.len(),
    {
        self.bytes.len()
    }
}

/// Answer one request in payload mode: status 200 and the payload, verbatim.
/// Every request gets the same answer; there is no failure path.
pub fn payload_response(payload: &Payload) -> (r: Response)
    ensures
        r.status == PAYLOAD_STATUS,
        r.body@ == payload@,
{
    Response { status: PAYLOAD_STATUS, body: payload.bytes.clone() }
}

} // verus!
