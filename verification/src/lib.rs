//! A verifiable-randomness protocol core: a record moves through a
//! request / seed / reveal lifecycle, the seed is written exactly once by an
//! attested oracle, and the final 32-byte outcome is bound by hashing to
//! material that no single party controlled alone.

use vstd::prelude::*;

mod hashing;
mod params;
mod sampling;
mod codec;
mod ixn;
mod request;
mod seed;
mod reveal_op;

pub use hashing::{digest_of, spec_randomness, derive_randomness, lemma_randomness_deterministic};
pub use request::Request;
pub use seed::{Seed, RequestSeededEvent, lemma_seed_at_most_once};
pub use reveal_op::{
    Reveal,
    lemma_reveal_at_most_once,
    lemma_reveal_signed_rejects_mismatch,
    lemma_end_to_end,
};
pub use ixn::{
    ED25519_PROGRAM_ID,
    AccountMetaData,
    InstructionData,
    spec_ed25519_verify_data,
    build_ed25519_verify_instruction,
    seed_tag_preimage,
    spec_seed_ixn_data,
    build_seed_instruction,
    run_oracle,
};
pub use codec::{
    spec_encode_record,
    record_matches_bytes,
    bytes_undecodable,
    encode_record,
    decode_record,
    lemma_codec_round_trip,
    disc_preimage,
    spec_record_discriminator,
    record_discriminator,
    load_account,
};
pub use params::{
    ContainerParams,
    identity_of_text,
    text_of_identity,
    pid_key,
    request_key_key,
    upto,
    lemma_upto,
    lemma_upto_is,
    apply_pair,
    spec_scan,
    spec_decode,
    spec_params_text,
    encode_params,
};
pub use sampling::{
    spec_sample,
    sample_with_entropy,
    generate_randomness,
    lemma_sample_in_range,
    lemma_sample_equal_bounds,
    lemma_sample_symmetric,
};

verus! {

/// Every failure a protocol operation can report. Each operation aborts as a
/// whole on any of these: no partial write is ever observable.
#[derive(Clone, Copy, PartialEq, Eq, Structural, Debug)]
pub enum SbError {
    /// A routing parameter is missing, malformed, or left at the zero identity.
    InvalidParameter,
    /// The record's seed phase has already completed.
    RequestAlreadySeeded,
    /// The record's reveal phase has already completed.
    RequestAlreadyRevealed,
    /// The revealed secret does not hash to the stored commitment.
    KeyVerifyFailed,
    /// The companion signature-verification instruction is absent or differs
    /// from the expected construction.
    SigVerifyFailed,
    /// The caller is not the enclave signer currently registered for the
    /// attested function tied to this record, or the linkage does not match.
    InvalidAuthorization,
    /// An account image is not owned by the expected program.
    WrongAccountOwner,
    /// An account image is too short to carry a discriminator.
    MissingDiscriminator,
    /// An account image carries a discriminator of some other account type.
    DiscriminatorMismatch,
    /// An account image body does not decode as a randomness record.
    AccountParseFailed,
}

/// The per-draw randomness record. Field order and width follow the on-ledger
/// layout exactly (see `codec`): one byte of bump, three 32-byte values, the
/// 32-bit seed, the 32-byte result, and three 64-bit timestamps.
#[derive(Clone, Copy, Debug)]
pub struct RequestAccountData {
    /// Address-derivation bump for the record account.
    pub bump: u8,
    /// Commitment: hash of the secret the requester will later reveal.
    pub pubkey_hash: [u8; 32],
    /// Address of the 1:1 entry in the attested function's request queue.
    pub switchboard_request: [u8; 32],
    /// The attested entropy value, writable exactly once.
    pub seed: u32,
    /// Entropy anchor captured from recent ledger history at seed time.
    pub blockhash: [u8; 32],
    /// The final 32-byte outcome, writable exactly once.
    pub result: [u8; 32],
    /// When the record was created; zero until set.
    pub request_timestamp: i64,
    /// When the seed was committed; zero until set.
    pub seed_timestamp: i64,
    /// When the outcome was revealed; zero until set.
    pub reveal_timestamp: i64,
}

/// The lifecycle phase a record is in, read off its one-shot timestamps.
#[derive(Clone, Copy, PartialEq, Eq, Structural, Debug)]
pub enum RequestState {
    Created,
    Requested,
    Seeded,
    Revealed,
}

impl RequestAccountData {
    /// A freshly allocated, zero-initialized record.
    pub open spec fn is_fresh(self) -> bool {
        &&& self.bump == 0u8
        &&& self.pubkey_hash@ == zero_id()
        &&& self.switchboard_request@ == zero_id()
        &&& self.seed == 0u32
        &&& self.blockhash@ == zero_id()
        &&& self.result@ == zero_id()
        &&& self.request_timestamp == 0i64
        &&& self.seed_timestamp == 0i64
        &&& self.reveal_timestamp == 0i64
    }

    /// The phase implied by the timestamps: each phase is entered exactly when
    /// its timestamp becomes non-zero.
    pub open spec fn state(self) -> RequestState {
        if self.reveal_timestamp > 0 {
            RequestState::Revealed
        } else if self.seed_timestamp > 0 {
            RequestState::Seeded
        } else if self.request_timestamp > 0 {
            RequestState::Requested
        } else {
            RequestState::Created
        }
    }

    /// Timestamps are non-negative, each phase's timestamp is zero until the
    /// phase is entered, and the three never decrease across phases.
    pub open spec fn wf(self) -> bool {
        &&& 0 <= self.request_timestamp
        &&& 0 <= self.seed_timestamp
        &&& 0 <= self.reveal_timestamp
        &&& self.seed_timestamp > 0 ==> self.request_timestamp <= self.seed_timestamp
        &&& self.reveal_timestamp > 0 ==> self.seed_timestamp <= self.reveal_timestamp
    }
}

/// The all-zero 32-byte identity; a required routing value left at it is
/// treated as unset.
pub open spec fn zero_id() -> Seq<u8> {
    Seq::new(32, |i: int| 0u8)
}

/// Entry point of the request phase: delegates to `Request::request`.
pub fn request(
    ctx: &Request,
    req_data: &mut RequestAccountData,
    keyhash: [u8; 32],
    now: i64,
) -> (params: Vec<u8>)
    requires
        old(req_data).is_fresh(),
        0 < now,
    ensures
        *final(req_data) == ctx.spec_request(*old(req_data), keyhash, now),
        final(req_data).state() == RequestState::Requested,
        final(req_data).wf(),
        params@ == params::spec_params_text(ctx.program_id@, ctx.req@),
        params@.len() <= 512,
        ctx.program_id@ != zero_id() && ctx.req@ != zero_id() ==> spec_decode(params@)
            == Ok::<_, SbError>((ctx.program_id@, ctx.req@)),
{
    ctx.request(req_data, keyhash, now)
}

/// Entry point of the seed phase: delegates to `Seed::seed`.
pub fn seed(ctx: &Seed, req_data: &mut RequestAccountData, value: u32, now: i64) -> (r: Result<
    RequestSeededEvent,
    SbError,
>)
    requires
        old(req_data).wf(),
        old(req_data).request_timestamp <= now,
        0 < now,
        ctx.recent_blockhashes@.len() >= 40,
    ensures
        (match r {
            Ok(ev) => {
                &&& ctx.spec_seed_outcome(*old(req_data), value, now) == Ok::<(), SbError>(())
                &&& ctx.seeded_record(*old(req_data), value, now, *final(req_data))
                &&& ev.request == ctx.req
                &&& ev.seed == value
            },
            Err(e) => {
                &&& ctx.spec_seed_outcome(*old(req_data), value, now) == Err::<(), SbError>(e)
                &&& *final(req_data) == *old(req_data)
            },
        }),
        old(req_data).reveal_timestamp == 0 || r is Err ==> final(req_data).wf(),
{
    ctx.seed(req_data, value, now)
}

/// Entry point of the signature-binding reveal: delegates to
/// `Reveal::reveal_signed`.
pub fn reveal_signed(
    ctx: &Reveal,
    req_data: &mut RequestAccountData,
    signature: [u8; 64],
    now: i64,
) -> (r: Result<(), SbError>)
    requires
        old(req_data).wf(),
        old(req_data).seed_timestamp <= now,
        0 < now,
    ensures
        (match r {
            Ok(_) => {
                &&& ctx.spec_reveal_signed_outcome(*old(req_data), signature@) == Ok::<
                    (),
                    SbError,
                >(())
                &&& Reveal::revealed_record(
                    *old(req_data),
                    digest_of(signature@),
                    now,
                    *final(req_data),
                )
            },
            Err(e) => {
                &&& ctx.spec_reveal_signed_outcome(*old(req_data), signature@) == Err::<
                    (),
                    SbError,
                >(e)
                &&& *final(req_data) == *old(req_data)
            },
        }),
        final(req_data).wf(),
{
    ctx.reveal_signed(req_data, signature, now)
}

/// Entry point of the preimage-commitment reveal: delegates to
/// `Reveal::reveal_key`.
pub fn reveal_key(
    ctx: &Reveal,
    req_data: &mut RequestAccountData,
    secret: [u8; 32],
    now: i64,
) -> (r: Result<(), SbError>)
    requires
        old(req_data).wf(),
        old(req_data).seed_timestamp <= now,
        0 < now,
    ensures
        (match r {
            Ok(_) => {
                &&& ctx.spec_reveal_key_outcome(*old(req_data), secret@) == Ok::<(), SbError>(())
                &&& Reveal::revealed_record(
                    *old(req_data),
                    spec_randomness(secret@, old(req_data).blockhash@, old(req_data).seed),
                    now,
                    *final(req_data),
                )
            },
            Err(e) => {
                &&& ctx.spec_reveal_key_outcome(*old(req_data), secret@) == Err::<(), SbError>(e)
                &&& *final(req_data) == *old(req_data)
            },
        }),
        final(req_data).wf(),
{
    ctx.reveal_key(req_data, secret, now)
}

/// Compares two 32-byte identities.
pub fn id_eq(a: &[u8; 32], b: &[u8; 32]) -> (r: bool)
    ensures
        r <==> a@ == b@,
{
    let mut i: usize = 0;
    while i < 32
        invariant
            i <= 32,
            forall|j: int| 0 <= j < i ==> a@[j] == b@[j],
        decreases 32 - i,
    {
        if a[i] != b[i] {
            return false;
        }
        i = i + 1;
    }
    proof {
        assert(a@ =~= b@);
    }
    true
}

/// True when the identity is the all-zero (unset) value.
pub fn is_zero_id(a: &[u8; 32]) -> (r: bool)
    ensures
        r <==> a@ == zero_id(),
{
    let mut i: usize = 0;
    while i < 32
        invariant
            i <= 32,
            forall|j: int| 0 <= j < i ==> a@[j] == 0u8,
        decreases 32 - i,
    {
        if a[i] != 0u8 {
            return false;
        }
        i = i + 1;
    }
    proof {
        assert(a@ =~= zero_id());
    }
    true
}

} // verus!
