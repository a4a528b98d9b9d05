//! The peer-side counterpart used to mock the remote engine: the
//! connection-upgrade path check and the server's half of the codec.
//!
//! Listening, accepting and the handshake itself are transport work and
//! live with the caller; the library decides whether a requested resource
//! path is acceptable and translates frames.

use crate::common::Error;
use crate::msg::{Request, Response};
use crate::wire::{decode_request, encode_response, spec_enc_response, spec_parse_request};
use vstd::prelude::*;

verus! {

/// The upgrade-request gate: connections are accepted only at the fixed
/// API resource path, everything else is to be rejected as forbidden.
#[derive(Debug, Clone, Copy, PartialEq, Eq, Hash, Structural)]
pub struct ServerCallback;

impl ServerCallback {
    /// Whether the requested resource path is the one fixed API path.
    /// A handshake whose path fails this check must be answered with a
    /// forbidden response instead of an upgrade.
    #[verifier::loop_isolation(false)]
    pub fn accept_path(&self, path: &str) -> (ok: bool)
        ensures
            ok == (path@ == "/sc2api"@),
    {
        let target: &str = "/sc2api";
        proof {
            reveal_strlit("/sc2api");
        }
        let n = path.unicode_len();
        if n != target.unicode_len() {
            return false;
        }
        let mut i: usize = 0;
        while i < n
            invariant
                i <= n,
                n == path@.len(),
                n == target@.len(),
                forall|j: int| 0 <= j < i ==> path@[j] == target@[j],
            decreases n - i,
        {
            if path.get_char(i) != target.get_char(i) {
                return false;
            }
            i = i + 1;
        }
        proof {
            assert(path@ =~= target@);
        }
        true
    }
}

/// Decode one inbound frame into a request envelope, as the server's
/// read path does; fails exactly like the client's read path.
pub fn req_from_msg(frame: &Vec<u8>) -> (r: Result<Request, Error>)
    ensures
        match spec_parse_request(frame@) {
            Some(v) => r matches Ok(m) && m@ == v,
            None => r matches Err(e) && e is Decode,
        },
{
    decode_request(frame)
}

/// Serialize a response envelope into exactly one transport frame.
pub fn res_into_msg(res: &Response) -> (frame: Vec<u8>)
    ensures
        frame@ == spec_enc_response(res@),
{
    encode_response(res)
}

} // verus!
