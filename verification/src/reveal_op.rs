//! The reveal phase: records the final outcome exactly once, through one of
//! two interchangeable proof strategies. Variant A checks a pre-committed
//! secret against the stored commitment and binds the outcome to secret,
//! anchor and seed. Variant B demands that the same atomic transaction carry
//! a companion ed25519 verification instruction proving a signature over the
//! little-endian seed under the record's own identity, and hashes that
//! signature into the outcome.

use vstd::prelude::*;
use vstd::bytes::{spec_u32_to_le_bytes, u32_to_le_bytes};
use crate::{
    RequestAccountData,
    SbError,
    AccountMetaData,
    InstructionData,
    ED25519_PROGRAM_ID,
    spec_ed25519_verify_data,
    build_ed25519_verify_instruction,
    digest_of,
    spec_randomness,
    derive_randomness,
    hashing,
    Request,
    Seed,
};

verus! {

/// The validated context of the reveal operation: the record's identity
/// (which in Variant B is also the signing identity the companion
/// instruction must verify against), and the first instruction of the
/// enclosing transaction as the execution environment's instruction
/// inspection reports it, if there is one.
pub struct Reveal {
    /// The record's identity.
    pub req: [u8; 32],
    /// The transaction's first instruction, as inspected at run time.
    pub first_instruction: Option<InstructionData>,
}

impl Reveal {
    /// The inspected companion instruction is exactly the expected ed25519
    /// verification: addressed to the ed25519 program, touching no accounts,
    /// its data binding `signature` to the little-endian seed under the
    /// record's own identity.
    pub open spec fn companion_matches(self, rec: RequestAccountData, signature: Seq<u8>) -> bool {
        match self.first_instruction {
            Option::Some(ix) => {
                &&& ix.program_id@ == ED25519_PROGRAM_ID@
                &&& ix.accounts@ == Seq::<AccountMetaData>::empty()
                &&& ix.data@ == spec_ed25519_verify_data(
                    self.req@,
                    spec_u32_to_le_bytes(rec.seed),
                    signature,
                )
            },
            Option::None => false,
        }
    }

    /// Which way the signature-binding reveal goes: the one-shot guard is
    /// checked first; then the reveal succeeds exactly when the companion
    /// instruction matches — any altered byte in key, message or signature,
    /// or its absence, fails `SigVerifyFailed`.
    pub open spec fn spec_reveal_signed_outcome(
        self,
        rec: RequestAccountData,
        signature: Seq<u8>,
    ) -> Result<(), SbError> {
        if rec.reveal_timestamp > 0 {
            Err(SbError::RequestAlreadyRevealed)
        } else if !self.companion_matches(rec, signature) {
            Err(SbError::SigVerifyFailed)
        } else {
            Ok(())
        }
    }

    /// Which way the preimage-commitment reveal goes: the one-shot guard is
    /// checked first; then the reveal succeeds exactly when the secret
    /// hashes to the stored commitment.
    pub open spec fn spec_reveal_key_outcome(
        self,
        rec: RequestAccountData,
        secret: Seq<u8>,
    ) -> Result<(), SbError> {
        if rec.reveal_timestamp > 0 {
            Err(SbError::RequestAlreadyRevealed)
        } else if digest_of(secret) != rec.pubkey_hash@ {
            Err(SbError::KeyVerifyFailed)
        } else {
            Ok(())
        }
    }

    /// The record after a successful reveal: the outcome and revealed-at
    /// written, everything else untouched.
    pub open spec fn revealed_record(
        rec: RequestAccountData,
        outcome: Seq<u8>,
        now: i64,
        rec2: RequestAccountData,
    ) -> bool {
        &&& rec2.bump == rec.bump
        &&& rec2.pubkey_hash == rec.pubkey_hash
        &&& rec2.switchboard_request == rec.switchboard_request
        &&& rec2.seed == rec.seed
        &&& rec2.blockhash == rec.blockhash
        &&& rec2.result@ == outcome
        &&& rec2.request_timestamp == rec.request_timestamp
        &&& rec2.seed_timestamp == rec.seed_timestamp
        &&& rec2.reveal_timestamp == now
    }

    /// Variant B. Records `hash(signature)` as the outcome, provided the
    /// companion ed25519 verification instruction proves `signature` over
    /// the record's little-endian seed under the record's own identity.
    pub fn reveal_signed(
        &self,
        req_data: &mut RequestAccountData,
        signature: [u8; 64],
        now: i64,
    ) -> (r: Result<(), SbError>)
        requires
            old(req_data).wf(),
            old(req_data).seed_timestamp <= now,
            0 < now,
        ensures
            (match r {
                Ok(_) => {
                    &&& self.spec_reveal_signed_outcome(*old(req_data), signature@) == Ok::<
                        (),
                        SbError,
                    >(())
                    &&& Reveal::revealed_record(
                        *old(req_data),
                        digest_of(signature@),
                        now,
                        *final(req_data),
                    )
                },
                Err(e) => {
                    &&& self.spec_reveal_signed_outcome(*old(req_data), signature@) == Err::<
                        (),
                        SbError,
                    >(e)
                    &&& *final(req_data) == *old(req_data)
                },
            }),
            final(req_data).wf(),
    {
        if req_data.reveal_timestamp > 0 {
            return Err(SbError::RequestAlreadyRevealed);
        }
        let msg = u32_to_le_bytes(req_data.seed);
        let expected = build_ed25519_verify_instruction(&self.req, &msg, &signature);
        match &self.first_instruction {
            Option::None => {
                return Err(SbError::SigVerifyFailed);
            },
            Option::Some(first) => {
                if !expected.same_instruction(first) {
                    return Err(SbError::SigVerifyFailed);
                }
            },
        }
        let outcome = hashing::sha256(signature.as_slice());
        req_data.result = outcome;
        req_data.reveal_timestamp = now;
        Ok(())
    }

    /// Variant A. Records `hash(secret ++ anchor ++ le(seed))` as the
    /// outcome, provided `hash(secret)` equals the commitment stored at
    /// request time.
    pub fn reveal_key(
        &self,
        req_data: &mut RequestAccountData,
        secret: [u8; 32],
        now: i64,
    ) -> (r: Result<(), SbError>)
        requires
            old(req_data).wf(),
            old(req_data).seed_timestamp <= now,
            0 < now,
        ensures
            (match r {
                Ok(_) => {
                    &&& self.spec_reveal_key_outcome(*old(req_data), secret@) == Ok::<
                        (),
                        SbError,
                    >(())
                    &&& Reveal::revealed_record(
                        *old(req_data),
                        spec_randomness(secret@, old(req_data).blockhash@, old(req_data).seed),
                        now,
                        *final(req_data),
                    )
                },
                Err(e) => {
                    &&& self.spec_reveal_key_outcome(*old(req_data), secret@) == Err::<
                        (),
                        SbError,
                    >(e)
                    &&& *final(req_data) == *old(req_data)
                },
            }),
            final(req_data).wf(),
    {
        if req_data.reveal_timestamp > 0 {
            return Err(SbError::RequestAlreadyRevealed);
        }
        let commit = hashing::sha256(secret.as_slice());
        if !crate::id_eq(&commit, &req_data.pubkey_hash) {
            return Err(SbError::KeyVerifyFailed);
        }
        let outcome = derive_randomness(&secret, &req_data.blockhash, req_data.seed);
        req_data.result = outcome;
        req_data.reveal_timestamp = now;
        Ok(())
    }
}

/// The reveal phase succeeds at most once: once a record was revealed at a
/// positive time, every further reveal call — under either strategy, with
/// any payload — fails `RequestAlreadyRevealed`.
pub proof fn lemma_reveal_at_most_once(
    op1: Reveal,
    op2: Reveal,
    rec: RequestAccountData,
    rec2: RequestAccountData,
    outcome: Seq<u8>,
    secret: Seq<u8>,
    signature: Seq<u8>,
    t1: i64,
)
    requires
        Reveal::revealed_record(rec, outcome, t1, rec2),
        t1 > 0,
    ensures
        op2.spec_reveal_key_outcome(rec2, secret) == Err::<(), SbError>(
            SbError::RequestAlreadyRevealed,
        ),
        op2.spec_reveal_signed_outcome(rec2, signature) == Err::<(), SbError>(
            SbError::RequestAlreadyRevealed,
        ),
{
}

/// A not-yet-revealed record rejects any signature whose companion
/// instruction is absent or differs anywhere from the expected construction:
/// the only error then is `SigVerifyFailed`.
pub proof fn lemma_reveal_signed_rejects_mismatch(
    op: Reveal,
    rec: RequestAccountData,
    signature: Seq<u8>,
)
    requires
        rec.reveal_timestamp <= 0,
        !op.companion_matches(rec, signature),
    ensures
        op.spec_reveal_signed_outcome(rec, signature) == Err::<(), SbError>(
            SbError::SigVerifyFailed,
        ),
{
}

/// The full preimage-commitment lifecycle. A fresh record is requested with
/// a commitment `hash(secret)`, then seeded; the reveal of `secret` is then
/// owed to succeed, and the outcome is `hash(secret ++ anchor ++ le(seed))`
/// for exactly the anchor captured at seed time and the seed value
/// committed — so repeating the sequence with identical secret, anchor and
/// seed reproduces the identical result.
pub proof fn lemma_end_to_end(
    rq: Request,
    sd: Seed,
    rv: Reveal,
    rec0: RequestAccountData,
    rec2: RequestAccountData,
    secret: [u8; 32],
    keyhash: [u8; 32],
    seed_value: u32,
    t0: i64,
    t1: i64,
)
    requires
        rec0.is_fresh(),
        keyhash@ == digest_of(secret@),
        sd.spec_seed_outcome(rq.spec_request(rec0, keyhash, t0), seed_value, t1) == Ok::<
            (),
            SbError,
        >(()),
        sd.seeded_record(rq.spec_request(rec0, keyhash, t0), seed_value, t1, rec2),
        0 < t0,
        0 < t1,
    ensures
        rv.spec_reveal_key_outcome(rec2, secret@) == Ok::<(), SbError>(()),
        rec2.seed == seed_value,
        rec2.blockhash@ == sd.recent_blockhashes@.subrange(8, 40),
        spec_randomness(secret@, rec2.blockhash@, rec2.seed) == spec_randomness(
            secret@,
            sd.recent_blockhashes@.subrange(8, 40),
            seed_value,
        ),
{
    let rec1 = rq.spec_request(rec0, keyhash, t0);
    assert(rec2.pubkey_hash == rec1.pubkey_hash);
    assert(rec2.pubkey_hash@ == keyhash@);
    assert(rec2.reveal_timestamp == rec0.reveal_timestamp);
}

} // verus!
