//! The record's wire form: an explicitly ordered, fixed-width byte layout
//! with no padding, so that independent implementations byte-match exactly,
//! together with the account-image checks the off-process oracle performs
//! before trusting a fetched record.

use vstd::prelude::*;
use vstd::array::ArrayAdditionalExecFns;
use vstd::bytes::{
    spec_u32_to_le_bytes,
    spec_u32_from_le_bytes,
    spec_u64_to_le_bytes,
    spec_u64_from_le_bytes,
    u32_to_le_bytes,
    u32_from_le_bytes,
    u64_to_le_bytes,
    u64_from_le_bytes,
    lemma_auto_spec_u32_to_from_le_bytes,
    lemma_auto_spec_u64_to_from_le_bytes,
};
use vstd::slice::slice_subrange;
use crate::{RequestAccountData, SbError, digest_of, hashing};

verus! {

/// The record's byte image: bump, commitment, external-request reference,
/// little-endian seed, anchor, result, and the three timestamps as
/// little-endian 64-bit words, 157 bytes in all.
pub open spec fn spec_encode_record(rec: RequestAccountData) -> Seq<u8> {
    seq![rec.bump] + rec.pubkey_hash@ + rec.switchboard_request@ + spec_u32_to_le_bytes(rec.seed)
        + rec.blockhash@ + rec.result@ + spec_u64_to_le_bytes(rec.request_timestamp as u64)
        + spec_u64_to_le_bytes(rec.seed_timestamp as u64) + spec_u64_to_le_bytes(
        rec.reveal_timestamp as u64,
    )
}

/// The record that the byte image `s` carries: every field read from its
/// fixed offset, timestamps non-negative.
pub open spec fn record_matches_bytes(rec: RequestAccountData, s: Seq<u8>) -> bool {
    &&& s.len() == 157
    &&& rec.bump == s[0]
    &&& rec.pubkey_hash@ == s.subrange(1, 33)
    &&& rec.switchboard_request@ == s.subrange(33, 65)
    &&& rec.seed == spec_u32_from_le_bytes(s.subrange(65, 69))
    &&& rec.blockhash@ == s.subrange(69, 101)
    &&& rec.result@ == s.subrange(101, 133)
    &&& rec.request_timestamp >= 0 && rec.request_timestamp as u64 == spec_u64_from_le_bytes(
        s.subrange(133, 141),
    )
    &&& rec.seed_timestamp >= 0 && rec.seed_timestamp as u64 == spec_u64_from_le_bytes(
        s.subrange(141, 149),
    )
    &&& rec.reveal_timestamp >= 0 && rec.reveal_timestamp as u64 == spec_u64_from_le_bytes(
        s.subrange(149, 157),
    )
}

/// A byte string no record matches: wrong length, or a timestamp word beyond
/// what a non-negative 64-bit ledger time can hold.
pub open spec fn bytes_undecodable(s: Seq<u8>) -> bool {
    ||| s.len() != 157
    ||| spec_u64_from_le_bytes(s.subrange(133, 141)) > i64::MAX as u64
    ||| spec_u64_from_le_bytes(s.subrange(141, 149)) > i64::MAX as u64
    ||| spec_u64_from_le_bytes(s.subrange(149, 157)) > i64::MAX as u64
}

/// Serializes a record into its fixed 157-byte layout.
pub fn encode_record(rec: &RequestAccountData) -> (r: Vec<u8>)
    requires
        rec.request_timestamp >= 0,
        rec.seed_timestamp >= 0,
        rec.reveal_timestamp >= 0,
    ensures
        r@ == spec_encode_record(*rec),
        r@.len() == 157,
{
    let mut out: Vec<u8> = Vec::new();
    out.push(rec.bump);
    out.extend_from_slice(rec.pubkey_hash.as_slice());
    out.extend_from_slice(rec.switchboard_request.as_slice());
    let seed_le = u32_to_le_bytes(rec.seed);
    out.extend_from_slice(seed_le.as_slice());
    out.extend_from_slice(rec.blockhash.as_slice());
    out.extend_from_slice(rec.result.as_slice());
    let t1 = u64_to_le_bytes(rec.request_timestamp as u64);
    out.extend_from_slice(t1.as_slice());
    let t2 = u64_to_le_bytes(rec.seed_timestamp as u64);
    out.extend_from_slice(t2.as_slice());
    let t3 = u64_to_le_bytes(rec.reveal_timestamp as u64);
    out.extend_from_slice(t3.as_slice());
    proof {
        assert(out@ =~= spec_encode_record(*rec));
    }
    out
}

/// Copies 32 bytes out of `data` starting at `off`.
pub(crate) fn read32(data: &Vec<u8>, off: usize) -> (r: [u8; 32])
    requires
        off + 32 <= data@.len(),
    ensures
        r@ == data@.subrange(off as int, off as int + 32),
{
    let n = data.len();
    let mut out: [u8; 32] = [0u8; 32];
    let mut i: usize = 0;
    while i < 32
        invariant
            i <= 32,
            off + 32 <= n,
            n == data@.len(),
            forall|j: int| 0 <= j < i ==> out@[j] == data@[off + j],
        decreases 32 - i,
    {
        out[i] = data[off + i];
        i = i + 1;
    }
    proof {
        assert(out@ =~= data@.subrange(off as int, off as int + 32));
    }
    out
}

/// Reads a little-endian 64-bit timestamp word at `off`, accepting only what
/// a non-negative ledger time can hold.
fn read_timestamp(data: &Vec<u8>, off: usize) -> (r: Option<i64>)
    requires
        off + 8 <= data@.len(),
    ensures
        (match r {
            Some(t) => t >= 0 && t as u64 == spec_u64_from_le_bytes(
                data@.subrange(off as int, off as int + 8),
            ),
            None => spec_u64_from_le_bytes(data@.subrange(off as int, off as int + 8))
                > i64::MAX as u64,
        }),
{
    let n = data.len();
    assert(off + 8 <= n);
    let word = u64_from_le_bytes(slice_subrange(data.as_slice(), off, off + 8));
    if word > i64::MAX as u64 {
        None
    } else {
        Some(word as i64)
    }
}

/// Deserializes a 157-byte image back into a record, exactly as
/// `record_matches_bytes` states; anything else is `AccountParseFailed`.
pub fn decode_record(data: &Vec<u8>) -> (r: Result<RequestAccountData, SbError>)
    ensures
        (match r {
            Ok(rec) => record_matches_bytes(rec, data@),
            Err(e) => e == SbError::AccountParseFailed && bytes_undecodable(data@),
        }),
{
    if data.len() != 157 {
        return Err(SbError::AccountParseFailed);
    }
    let bump = data[0];
    let pubkey_hash = read32(data, 1);
    let switchboard_request = read32(data, 33);
    let seed = u32_from_le_bytes(slice_subrange(data.as_slice(), 65, 69));
    let blockhash = read32(data, 69);
    let result = read32(data, 101);
    let request_timestamp = match read_timestamp(data, 133) {
        Some(t) => t,
        None => {
            return Err(SbError::AccountParseFailed);
        },
    };
    let seed_timestamp = match read_timestamp(data, 141) {
        Some(t) => t,
        None => {
            return Err(SbError::AccountParseFailed);
        },
    };
    let reveal_timestamp = match read_timestamp(data, 149) {
        Some(t) => t,
        None => {
            return Err(SbError::AccountParseFailed);
        },
    };
    Ok(
        RequestAccountData {
            bump,
            pubkey_hash,
            switchboard_request,
            seed,
            blockhash,
            result,
            request_timestamp,
            seed_timestamp,
            reveal_timestamp,
        },
    )
}

/// Encoding a record and reading the image back recovers every field: the
/// fixed-width layout loses nothing.
pub proof fn lemma_codec_round_trip(rec: RequestAccountData)
    requires
        rec.request_timestamp >= 0,
        rec.seed_timestamp >= 0,
        rec.reveal_timestamp >= 0,
    ensures
        record_matches_bytes(rec, spec_encode_record(rec)),
        !bytes_undecodable(spec_encode_record(rec)),
{
    lemma_auto_spec_u32_to_from_le_bytes();
    lemma_auto_spec_u64_to_from_le_bytes();
    let s = spec_encode_record(rec);
    assert(s.subrange(1, 33) =~= rec.pubkey_hash@);
    assert(s.subrange(33, 65) =~= rec.switchboard_request@);
    assert(s.subrange(65, 69) =~= spec_u32_to_le_bytes(rec.seed));
    assert(s.subrange(69, 101) =~= rec.blockhash@);
    assert(s.subrange(101, 133) =~= rec.result@);
    assert(s.subrange(133, 141) =~= spec_u64_to_le_bytes(rec.request_timestamp as u64));
    assert(s.subrange(141, 149) =~= spec_u64_to_le_bytes(rec.seed_timestamp as u64));
    assert(s.subrange(149, 157) =~= spec_u64_to_le_bytes(rec.reveal_timestamp as u64));
}

/// The preimage of the record account's discriminator, the text
/// `account:RequestAccountData`.
pub open spec fn disc_preimage() -> Seq<u8> {
    seq![
        97u8,
        99u8,
        99u8,
        111u8,
        117u8,
        110u8,
        116u8,
        58u8,
        82u8,
        101u8,
        113u8,
        117u8,
        101u8,
        115u8,
        116u8,
        65u8,
        99u8,
        99u8,
        111u8,
        117u8,
        110u8,
        116u8,
        68u8,
        97u8,
        116u8,
        97u8,
    ]
}

/// The 8-byte tag that opens every record account image: the first eight
/// bytes of the digest of `account:RequestAccountData`.
pub open spec fn spec_record_discriminator() -> Seq<u8> {
    digest_of(disc_preimage()).take(8)
}

/// Computes the record account discriminator.
pub fn record_discriminator() -> (r: Vec<u8>)
    ensures
        r@ == spec_record_discriminator(),
        r@.len() == 8,
{
    let pre: [u8; 26] = [
        97u8, 99u8, 99u8, 111u8, 117u8, 110u8, 116u8, 58u8, 82u8, 101u8, 113u8, 117u8, 101u8,
        115u8, 116u8, 65u8, 99u8, 99u8, 111u8, 117u8, 110u8, 116u8, 68u8, 97u8, 116u8, 97u8,
    ];
    proof {
        assert(pre@ =~= disc_preimage());
    }
    let d = hashing::sha256(pre.as_slice());
    let mut out: Vec<u8> = Vec::new();
    let mut i: usize = 0;
    while i < 8
        invariant
            i <= 8,
            out@ =~= d@.take(i as int),
            d@ == digest_of(disc_preimage()),
        decreases 8 - i,
    {
        out.push(d[i]);
        i = i + 1;
    }
    proof {
        assert(out@ =~= spec_record_discriminator());
    }
    out
}

/// Validates and parses a fetched record account image, as the off-process
/// oracle does before trusting it: the image must be owned by the program,
/// open with the record discriminator, and carry a well-formed record body.
pub fn load_account(owner: &[u8; 32], program_id: &[u8; 32], data: &Vec<u8>) -> (r: Result<
    RequestAccountData,
    SbError,
>)
    ensures
        owner@ != program_id@ ==> r == Err::<RequestAccountData, SbError>(
            SbError::WrongAccountOwner,
        ),
        owner@ == program_id@ && data@.len() < 8 ==> r == Err::<RequestAccountData, SbError>(
            SbError::MissingDiscriminator,
        ),
        owner@ == program_id@ && data@.len() >= 8 && data@.take(8) != spec_record_discriminator()
            ==> r == Err::<RequestAccountData, SbError>(SbError::DiscriminatorMismatch),
        owner@ == program_id@ && data@.len() >= 8 && data@.take(8) == spec_record_discriminator()
            ==> (match r {
            Ok(rec) => record_matches_bytes(rec, data@.skip(8)),
            Err(e) => e == SbError::AccountParseFailed && bytes_undecodable(data@.skip(8)),
        }),
{
    if !crate::id_eq(owner, program_id) {
        return Err(SbError::WrongAccountOwner);
    }
    if data.len() < 8 {
        return Err(SbError::MissingDiscriminator);
    }
    let disc = record_discriminator();
    let mut i: usize = 0;
    while i < 8
        invariant
            i <= 8,
            data@.len() >= 8,
            owner@ == program_id@,
            disc@ == spec_record_discriminator(),
            disc@.len() == 8,
            forall|j: int| 0 <= j < i ==> data@[j] == disc@[j],
        decreases 8 - i,
    {
        if data[i] != disc[i] {
            proof {
                assert(data@.take(8)[i as int] != spec_record_discriminator()[i as int]);
            }
            return Err(SbError::DiscriminatorMismatch);
        }
        i = i + 1;
    }
    proof {
        assert(data@.take(8) =~= spec_record_discriminator());
    }
    let body = vstd::slice::slice_to_vec(slice_subrange(data.as_slice(), 8, data.len()));
    proof {
        assert(body@ =~= data@.skip(8));
    }
    decode_record(&body)
}

} // verus!
