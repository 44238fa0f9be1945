//! The request phase: allocates the randomness record together with its
//! external-request reference and prepares the routing parameters for the
//! attested function's queue. The external invocation itself, with its
//! expiration window, is the surrounding runtime's to issue; if the oracle
//! never answers before expiration, the record stays stuck before the seed
//! phase — an accepted liveness gap, not a correctness bug.

use vstd::prelude::*;
use crate::{
    RequestAccountData,
    RequestState,
    SbError,
    zero_id,
    encode_params,
    spec_params_text,
    spec_decode,
};

verus! {

/// The validated context of the request operation: the funding identity, an
/// arbitrary authority reference, this program's own identity, and the
/// addresses of the new record and of its external request entry.
pub struct Request {
    pub payer: [u8; 32],
    pub authority: [u8; 32],
    pub program_id: [u8; 32],
    pub req: [u8; 32],
    pub switchboard_request: [u8; 32],
}

impl Request {
    /// The record right after creation: commitment and external-request
    /// reference written, requested-at set, everything else still zero.
    pub open spec fn spec_request(
        self,
        rec: RequestAccountData,
        keyhash: [u8; 32],
        now: i64,
    ) -> RequestAccountData {
        RequestAccountData {
            pubkey_hash: keyhash,
            switchboard_request: self.switchboard_request,
            request_timestamp: now,
            ..rec
        }
    }

    /// Creates the record in its freshly allocated storage slot and returns
    /// the routing buffer for the external attested-function invocation,
    /// which embeds this program's identity and the record's address so the
    /// off-process oracle can address its reply.
    pub fn request(
        &self,
        req_data: &mut RequestAccountData,
        keyhash: [u8; 32],
        now: i64,
    ) -> (params: Vec<u8>)
        requires
            old(req_data).is_fresh(),
            0 < now,
        ensures
            *final(req_data) == self.spec_request(*old(req_data), keyhash, now),
            final(req_data).state() == RequestState::Requested,
            final(req_data).wf(),
            params@ == spec_params_text(self.program_id@, self.req@),
            params@.len() <= 512,
            self.program_id@ != zero_id() && self.req@ != zero_id() ==> spec_decode(params@)
                == Ok::<_, SbError>((self.program_id@, self.req@)),
    {
        req_data.pubkey_hash = keyhash;
        req_data.switchboard_request = self.switchboard_request;
        req_data.request_timestamp = now;
        encode_params(&self.program_id, &self.req)
    }
}

} // verus!
