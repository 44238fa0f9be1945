//! The seed phase: the protocol's core trust boundary. Only the enclave
//! signer currently registered for the attested function tied to this
//! record's external request may write the seed, and it may be written
//! exactly once. At commit time an entropy anchor is captured from a rolling
//! buffer of recent, hard-to-predict ledger history.

use vstd::prelude::*;
use crate::{RequestAccountData, SbError, codec};

verus! {

/// The observability event emitted when a record is seeded.
#[derive(Clone, Copy, Debug)]
pub struct RequestSeededEvent {
    /// The record's identity.
    pub request: [u8; 32],
    /// The seed value that was committed.
    pub seed: u32,
}

/// The validated context of the seed operation. `signer_registered` is the
/// AttestationRegistry collaborator's verdict on whether `enclave_signer` is
/// the identity currently registered for `switchboard_function`; the core
/// delegates that question and keeps no registry bookkeeping of its own.
pub struct Seed {
    /// The record's identity.
    pub req: [u8; 32],
    /// The attested function this call claims to come from.
    pub switchboard_function: [u8; 32],
    /// The external request entry named by the caller.
    pub switchboard_request: [u8; 32],
    /// The attested function the external request entry is tied to.
    pub request_function: [u8; 32],
    /// The identity that signed this call.
    pub enclave_signer: [u8; 32],
    /// The AttestationRegistry's answer for (function, signer).
    pub signer_registered: bool,
    /// The rolling buffer of recent ledger history the anchor is read from.
    pub recent_blockhashes: Vec<u8>,
}

impl Seed {
    /// The caller is authorized: the registry vouches for the signer, the
    /// named external request entry is the one the record was created with,
    /// and that entry is tied to the claimed function. Any mismatch is an
    /// authorization failure, not a state failure.
    pub open spec fn authorized(self, rec: RequestAccountData) -> bool {
        &&& self.signer_registered
        &&& self.switchboard_request@ == rec.switchboard_request@
        &&& self.request_function@ == self.switchboard_function@
    }

    /// Which way the seed operation goes: the one-shot guard is checked
    /// before anything else, then authorization; only then does the write
    /// happen.
    pub open spec fn spec_seed_outcome(
        self,
        rec: RequestAccountData,
        value: u32,
        now: i64,
    ) -> Result<(), SbError> {
        if rec.seed_timestamp > 0 {
            Err(SbError::RequestAlreadySeeded)
        } else if !self.authorized(rec) {
            Err(SbError::InvalidAuthorization)
        } else {
            Ok(())
        }
    }

    /// The record after a successful seed: the seed value and seeded-at
    /// written, the anchor captured from bytes 8..40 of the rolling buffer,
    /// everything else untouched.
    pub open spec fn seeded_record(
        self,
        rec: RequestAccountData,
        value: u32,
        now: i64,
        rec2: RequestAccountData,
    ) -> bool {
        &&& rec2.bump == rec.bump
        &&& rec2.pubkey_hash == rec.pubkey_hash
        &&& rec2.switchboard_request == rec.switchboard_request
        &&& rec2.seed == value
        &&& rec2.blockhash@ == self.recent_blockhashes@.subrange(8, 40)
        &&& rec2.result == rec.result
        &&& rec2.request_timestamp == rec.request_timestamp
        &&& rec2.seed_timestamp == now
        &&& rec2.reveal_timestamp == rec.reveal_timestamp
    }

    /// Commits the attested entropy exactly once. Fails `RequestAlreadySeeded`
    /// whenever seeded-at is already non-zero, regardless of the value
    /// supplied; fails `InvalidAuthorization` on any attestation mismatch; on
    /// success writes seed, seeded-at and the entropy anchor, and returns the
    /// `RequestSeededEvent` to emit.
    pub fn seed(&self, req_data: &mut RequestAccountData, value: u32, now: i64) -> (r: Result<
        RequestSeededEvent,
        SbError,
    >)
        requires
            old(req_data).wf(),
            old(req_data).request_timestamp <= now,
            0 < now,
            self.recent_blockhashes@.len() >= 40,
        ensures
            (match r {
                Ok(ev) => {
                    &&& self.spec_seed_outcome(*old(req_data), value, now) == Ok::<(), SbError>(())
                    &&& self.seeded_record(*old(req_data), value, now, *final(req_data))
                    &&& ev.request == self.req
                    &&& ev.seed == value
                },
                Err(e) => {
                    &&& self.spec_seed_outcome(*old(req_data), value, now) == Err::<(), SbError>(e)
                    &&& *final(req_data) == *old(req_data)
                },
            }),
            old(req_data).reveal_timestamp == 0 || r is Err ==> final(req_data).wf(),
    {
        if req_data.seed_timestamp > 0 {
            return Err(SbError::RequestAlreadySeeded);
        }
        let linked = crate::id_eq(&self.switchboard_request, &req_data.switchboard_request);
        let tied = crate::id_eq(&self.request_function, &self.switchboard_function);
        if !(self.signer_registered && linked && tied) {
            return Err(SbError::InvalidAuthorization);
        }
        let anchor = codec::read32(&self.recent_blockhashes, 8);
        req_data.seed = value;
        req_data.seed_timestamp = now;
        req_data.blockhash = anchor;
        Ok(RequestSeededEvent { request: self.req, seed: value })
    }
}

/// The seed phase succeeds at most once: once a record was seeded at a
/// positive time, every further seed call fails `RequestAlreadySeeded`,
/// whatever value, context, or time it supplies.
pub proof fn lemma_seed_at_most_once(
    op1: Seed,
    op2: Seed,
    rec: RequestAccountData,
    rec2: RequestAccountData,
    v1: u32,
    v2: u32,
    t1: i64,
    t2: i64,
)
    requires
        op1.spec_seed_outcome(rec, v1, t1) == Ok::<(), SbError>(()),
        op1.seeded_record(rec, v1, t1, rec2),
        t1 > 0,
    ensures
        op2.spec_seed_outcome(rec2, v2, t2) == Err::<(), SbError>(SbError::RequestAlreadySeeded),
{
}

} // verus!
