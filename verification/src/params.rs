//! Routing parameters for the off-process oracle: an ASCII buffer of
//! comma-separated `KEY=VALUE` pairs. The two required keys are `PID` (the
//! target program identity) and `REQUEST_KEY` (the record address); decoding
//! fails when either is absent, malformed, or left at the zero identity.

use vstd::prelude::*;
use crate::{SbError, zero_id, is_zero_id};

verus! {

/// The routing parameters the oracle needs to address its reply.
#[derive(Clone, Copy, Debug)]
pub struct ContainerParams {
    /// The target program's identity.
    pub program_id: [u8; 32],
    /// The address of the randomness record awaiting a seed.
    pub request_key: [u8; 32],
}

/// The 32-byte identity a base58 text decodes to, or nothing when the text is
/// not the base58 form of exactly 32 bytes. A function of the text alone.
pub uninterp spec fn identity_of_text(s: Seq<u8>) -> Option<Seq<u8>>;

/// The base58 text of a 32-byte identity. A function of the identity alone.
pub uninterp spec fn text_of_identity(k: Seq<u8>) -> Seq<u8>;

/// Relies on `Pubkey::from_str` of `solana_program`: base58-decodes the text
/// and accepts exactly 32 bytes; any other input is rejected.
#[verifier::external_body]
fn parse_identity(s: &Vec<u8>, lo: usize, hi: usize) -> (r: Option<[u8; 32]>)
    requires
        lo <= hi <= s@.len(),
    ensures
        (match r {
            Some(k) => identity_of_text(s@.subrange(lo as int, hi as int)) == Some(k@),
            None => identity_of_text(s@.subrange(lo as int, hi as int)) is None,
        }),
{
    let text = match core::str::from_utf8(&s[lo..hi]) {
        Ok(t) => t,
        Err(_) => {
            return None;
        },
    };
    match <solana_program::pubkey::Pubkey as core::str::FromStr>::from_str(text) {
        Ok(p) => Some(p.to_bytes()),
        Err(_) => None,
    }
}

/// Relies on `Pubkey`'s display impl of `solana_program`: the base58 text of
/// the 32 bytes, at most 44 characters from an alphanumeric alphabet (so it
/// holds neither `,` nor `=`), and `Pubkey::from_str` parses it back to the
/// same 32 bytes.
#[verifier::external_body]
fn encode_identity(k: &[u8; 32]) -> (r: Vec<u8>)
    ensures
        r@ == text_of_identity(k@),
        identity_of_text(r@) == Some(k@),
        1 <= r@.len() <= 44,
        forall|i: int| 0 <= i < r@.len() ==> r@[i] != 44u8 && r@[i] != 61u8,
{
    solana_program::pubkey::Pubkey::new_from_array(*k).to_string().into_bytes()
}

/// The bytes of the key `PID`.
pub open spec fn pid_key() -> Seq<u8> {
    seq![80u8, 73u8, 68u8]
}

/// The bytes of the key `REQUEST_KEY`.
pub open spec fn request_key_key() -> Seq<u8> {
    seq![82u8, 69u8, 81u8, 85u8, 69u8, 83u8, 84u8, 95u8, 75u8, 69u8, 89u8]
}

/// The length of the prefix of `s` before the first `c`; the whole length
/// when `c` does not occur.
pub open spec fn upto(s: Seq<u8>, c: u8) -> nat
    decreases s.len(),
{
    if s.len() == 0 {
        0
    } else if s[0] == c {
        0
    } else {
        1 + upto(s.skip(1), c)
    }
}

/// `upto` points at the first occurrence: nothing before it is `c`, and the
/// byte there (when inside the sequence) is `c`.
pub proof fn lemma_upto(s: Seq<u8>, c: u8)
    ensures
        upto(s, c) <= s.len(),
        forall|j: int| 0 <= j < upto(s, c) ==> s[j] != c,
        upto(s, c) < s.len() ==> s[upto(s, c) as int] == c,
    decreases s.len(),
{
    if s.len() != 0 && s[0] != c {
        lemma_upto(s.skip(1), c);
        assert forall|j: int| 0 <= j < upto(s, c) implies s[j] != c by {
            if j > 0 {
                assert(s.skip(1)[j - 1] == s[j]);
            }
        }
        if upto(s, c) < s.len() {
            assert(s.skip(1)[upto(s, c) - 1] == s[upto(s, c) as int]);
        }
    }
}

/// An index below which `c` never occurs, and at which `c` stands (or which
/// is the whole length), is exactly `upto`.
pub proof fn lemma_upto_is(s: Seq<u8>, c: u8, i: int)
    requires
        0 <= i <= s.len(),
        forall|j: int| 0 <= j < i ==> s[j] != c,
        i < s.len() ==> s[i] == c,
    ensures
        upto(s, c) == i,
{
    lemma_upto(s, c);
    let u = upto(s, c) as int;
    if u < i {
        assert(s[u] != c);
    } else if u > i {
        assert(s[i] != c);
    }
}

/// Applies one `KEY=VALUE` segment to the two values gathered so far: a later
/// pair overrides an earlier one, a segment without `=` or with an unknown
/// key is skipped, and a known key with a malformed value fails.
pub open spec fn apply_pair(seg: Seq<u8>, pid: Seq<u8>, rk: Seq<u8>) -> Result<
    (Seq<u8>, Seq<u8>),
    SbError,
> {
    let e = upto(seg, 61u8);
    if e == seg.len() {
        Ok((pid, rk))
    } else {
        let key = seg.take(e as int);
        let val = seg.skip(e as int + 1);
        if key == pid_key() {
            match identity_of_text(val) {
                Some(k) => Ok((k, rk)),
                None => Err(SbError::InvalidParameter),
            }
        } else if key == request_key_key() {
            match identity_of_text(val) {
                Some(k) => Ok((pid, k)),
                None => Err(SbError::InvalidParameter),
            }
        } else {
            Ok((pid, rk))
        }
    }
}

/// Folds `apply_pair` over the comma-separated segments of `s`, left to
/// right, starting from the two values gathered so far.
pub open spec fn spec_scan(s: Seq<u8>, pid: Seq<u8>, rk: Seq<u8>) -> Result<
    (Seq<u8>, Seq<u8>),
    SbError,
>
    decreases s.len(),
{
    let m = upto(s, 44u8);
    if m >= s.len() {
        apply_pair(s, pid, rk)
    } else {
        match apply_pair(s.take(m as int), pid, rk) {
            Ok((p, r)) => spec_scan(s.skip(m as int + 1), p, r),
            Err(e) => Err(e),
        }
    }
}

/// What decoding a routing buffer yields: the `PID` and `REQUEST_KEY` values,
/// provided both were given, well-formed, and not the zero identity.
pub open spec fn spec_decode(s: Seq<u8>) -> Result<(Seq<u8>, Seq<u8>), SbError> {
    match spec_scan(s, zero_id(), zero_id()) {
        Ok((p, r)) => if p == zero_id() || r == zero_id() {
            Err(SbError::InvalidParameter)
        } else {
            Ok((p, r))
        },
        Err(e) => Err(e),
    }
}

/// The routing text `PID=<p>,REQUEST_KEY=<r>` for the two identities.
pub open spec fn spec_params_text(pid: Seq<u8>, rk: Seq<u8>) -> Seq<u8> {
    seq![80u8, 73u8, 68u8, 61u8] + text_of_identity(pid) + seq![
        44u8,
        82u8,
        69u8,
        81u8,
        85u8,
        69u8,
        83u8,
        84u8,
        95u8,
        75u8,
        69u8,
        89u8,
        61u8,
    ] + text_of_identity(rk)
}

/// Builds the routing buffer `PID=<p>,REQUEST_KEY=<r>` that the off-process
/// oracle decodes. It always fits the 512-byte parameter budget, and as long
/// as neither identity is the zero identity, decoding it yields exactly the
/// two identities again.
pub fn encode_params(program_id: &[u8; 32], request_key: &[u8; 32]) -> (r: Vec<u8>)
    ensures
        r@ == spec_params_text(program_id@, request_key@),
        r@.len() <= 512,
        program_id@ != zero_id() && request_key@ != zero_id() ==> spec_decode(r@)
            == Ok::<_, SbError>((program_id@, request_key@)),
{
    let t1 = encode_identity(program_id);
    let t2 = encode_identity(request_key);
    let mut out: Vec<u8> = Vec::new();
    out.push(80u8);
    out.push(73u8);
    out.push(68u8);
    out.push(61u8);
    out.extend_from_slice(t1.as_slice());
    out.push(44u8);
    out.push(82u8);
    out.push(69u8);
    out.push(81u8);
    out.push(85u8);
    out.push(69u8);
    out.push(83u8);
    out.push(84u8);
    out.push(95u8);
    out.push(75u8);
    out.push(69u8);
    out.push(89u8);
    out.push(61u8);
    out.extend_from_slice(t2.as_slice());
    proof {
        assert(out@ =~= spec_params_text(program_id@, request_key@));
        lemma_params_text_decodes(program_id@, request_key@, t1@, t2@, out@);
    }
    out
}

/// The scan of `PID=<p>,REQUEST_KEY=<r>` gathers exactly the two encoded
/// identities; decoding therefore returns them whenever neither is zero.
proof fn lemma_params_text_decodes(
    pid: Seq<u8>,
    rk: Seq<u8>,
    t1: Seq<u8>,
    t2: Seq<u8>,
    full: Seq<u8>,
)
    requires
        t1 == text_of_identity(pid),
        t2 == text_of_identity(rk),
        identity_of_text(t1) == Some(pid),
        identity_of_text(t2) == Some(rk),
        1 <= t1.len() <= 44,
        1 <= t2.len() <= 44,
        forall|i: int| 0 <= i < t1.len() ==> t1[i] != 44u8 && t1[i] != 61u8,
        forall|i: int| 0 <= i < t2.len() ==> t2[i] != 44u8 && t2[i] != 61u8,
        full == spec_params_text(pid, rk),
    ensures
        full.len() <= 512,
        spec_scan(full, zero_id(), zero_id()) == Ok::<_, SbError>((pid, rk)),
        pid != zero_id() && rk != zero_id() ==> spec_decode(full) == Ok::<_, SbError>((pid, rk)),
{
    let p: Seq<u8> = seq![80u8, 73u8, 68u8, 61u8];
    let smid: Seq<u8> = seq![44u8, 82u8, 69u8, 81u8, 85u8, 69u8, 83u8, 84u8, 95u8, 75u8, 69u8, 89u8, 61u8];
    assert(full == p + t1 + smid + t2);
    let l1: int = 4 + t1.len() as int;
    // The first comma stands right after the encoded program identity.
    assert forall|j: int| 0 <= j < l1 implies full[j] != 44u8 by {
        if j < 4 {
            assert(full[j] == p[j]);
        } else {
            assert(full[j] == t1[j - 4]);
        }
    }
    assert(full[l1] == smid[0]);
    lemma_upto_is(full, 44u8, l1);
    let seg = full.take(l1);
    // Inside the first segment, the first `=` stands right after `PID`.
    assert forall|j: int| 0 <= j < 3 implies seg[j] != 61u8 by {
        assert(seg[j] == p[j]);
    }
    assert(seg[3] == p[3]);
    lemma_upto_is(seg, 61u8, 3);
    assert(seg.take(3) =~= pid_key());
    assert(seg.skip(4) =~= t1);
    assert(apply_pair(seg, zero_id(), zero_id()) == Ok::<_, SbError>((pid, zero_id())));
    let rest = full.skip(l1 + 1);
    assert(rest =~= smid.skip(1) + t2);
    // The second segment runs to the end: no comma occurs in it.
    assert forall|j: int| 0 <= j < rest.len() implies rest[j] != 44u8 by {
        if j < 12 {
            assert(rest[j] == smid[j + 1]);
        } else {
            assert(rest[j] == t2[j - 12]);
        }
    }
    lemma_upto_is(rest, 44u8, rest.len() as int);
    // Its first `=` stands right after `REQUEST_KEY`.
    assert forall|j: int| 0 <= j < 11 implies rest[j] != 61u8 by {
        assert(rest[j] == smid[j + 1]);
    }
    assert(rest[11] == smid[12]);
    lemma_upto_is(rest, 61u8, 11);
    let key2 = rest.take(11);
    assert(key2 =~= request_key_key());
    assert(key2.len() == 11);
    assert(pid_key().len() == 3);
    assert(key2 != pid_key());
    assert(rest.skip(12) =~= t2);
    assert(apply_pair(rest, pid, zero_id()) == Ok::<_, SbError>((pid, rk)));
    assert(spec_scan(rest, pid, zero_id()) == Ok::<_, SbError>((pid, rk)));
    assert(spec_scan(full, zero_id(), zero_id()) == Ok::<_, SbError>((pid, rk)));
}

/// First index of `c` in `s` within `[start, end)`, or `end` when absent.
fn find_before(s: &Vec<u8>, start: usize, end: usize, c: u8) -> (r: usize)
    requires
        start <= end <= s@.len(),
    ensures
        start <= r <= end,
        forall|j: int| start <= j < r ==> s@[j] != c,
        r < end ==> s@[r as int] == c,
{
    let mut i: usize = start;
    while i < end
        invariant
            start <= i <= end <= s@.len(),
            forall|j: int| start <= j < i ==> s@[j] != c,
        decreases end - i,
    {
        if s[i] == c {
            return i;
        }
        i = i + 1;
    }
    i
}

/// Compares the bytes of `s` in `[lo, hi)` with a fixed key.
fn region_eq<const N: usize>(s: &Vec<u8>, lo: usize, hi: usize, key: &[u8; N]) -> (r: bool)
    requires
        lo <= hi <= s@.len(),
    ensures
        r <==> s@.subrange(lo as int, hi as int) == key@,
{
    if hi - lo != N {
        proof {
            assert(s@.subrange(lo as int, hi as int).len() != key@.len());
        }
        return false;
    }
    let mut i: usize = 0;
    while i < N
        invariant
            i <= N,
            lo <= hi <= s@.len(),
            hi - lo == N,
            forall|j: int| 0 <= j < i ==> s@[lo + j] == key@[j],
        decreases N - i,
    {
        if s[lo + i] != key[i] {
            proof {
                assert(s@.subrange(lo as int, hi as int)[i as int] != key@[i as int]);
            }
            return false;
        }
        i = i + 1;
    }
    proof {
        assert(s@.subrange(lo as int, hi as int) =~= key@);
    }
    true
}

impl ContainerParams {
    /// Decodes a routing buffer of comma-separated `KEY=VALUE` pairs, exactly
    /// as `spec_decode` states: both required keys must be present, parse as
    /// base58 identities, and differ from the zero identity.
    pub fn decode(container_params: &Vec<u8>) -> (r: Result<ContainerParams, SbError>)
        ensures
            (match r {
                Ok(p) => spec_decode(container_params@) == Ok::<_, SbError>(
                    (p.program_id@, p.request_key@),
                ),
                Err(e) => spec_decode(container_params@) == Err::<(Seq<u8>, Seq<u8>), _>(e),
            }),
    {
        let n = container_params.len();
        let mut pid: [u8; 32] = [0u8; 32];
        let mut rk: [u8; 32] = [0u8; 32];
        let mut i: usize = 0;
        proof {
            assert(pid@ =~= zero_id());
            assert(rk@ =~= zero_id());
            assert(container_params@.skip(0) =~= container_params@);
        }
        let ghost goal = spec_scan(container_params@, zero_id(), zero_id());
        loop
            invariant_except_break
                i <= n,
                n == container_params@.len(),
                goal == spec_scan(container_params@.skip(i as int), pid@, rk@),
                goal == spec_scan(container_params@, zero_id(), zero_id()),
            ensures
                goal == Ok::<_, SbError>((pid@, rk@)),
                goal == spec_scan(container_params@, zero_id(), zero_id()),
            decreases n - i,
        {
            let ghost old_pid = pid@;
            let ghost old_rk = rk@;
            let m = find_before(container_params, i, n, 44u8);
            let e = find_before(container_params, i, m, 61u8);
            let ghost tail = container_params@.skip(i as int);
            let ghost seg = tail.take(m - i);
            proof {
                assert forall|j: int| 0 <= j < m - i implies tail[j] != 44u8 by {
                    assert(tail[j] == container_params@[i + j]);
                }
                if m < n {
                    assert(tail[m - i] == container_params@[m as int]);
                }
                lemma_upto_is(tail, 44u8, m - i);
                assert forall|j: int| 0 <= j < e - i implies seg[j] != 61u8 by {
                    assert(seg[j] == container_params@[i + j]);
                }
                if e < m {
                    assert(seg[e - i] == container_params@[e as int]);
                }
                lemma_upto_is(seg, 61u8, e - i);
                if m >= n {
                    assert(seg =~= tail);
                }
            }
            if e < m {
                let ghost key = seg.take(e - i);
                let ghost val = seg.skip(e - i + 1);
                proof {
                    assert(key =~= container_params@.subrange(i as int, e as int));
                    assert(val =~= container_params@.subrange(e + 1, m as int));
                }
                let is_pid = region_eq::<3>(container_params, i, e, &[80u8, 73u8, 68u8]);
                proof {
                    assert([80u8, 73u8, 68u8]@ =~= pid_key());
                }
                if is_pid {
                    match parse_identity(container_params, e + 1, m) {
                        Some(k) => {
                            pid = k;
                        },
                        None => {
                            return Err(SbError::InvalidParameter);
                        },
                    }
                } else {
                    let is_rk = region_eq::<11>(
                        container_params,
                        i,
                        e,
                        &[82u8, 69u8, 81u8, 85u8, 69u8, 83u8, 84u8, 95u8, 75u8, 69u8, 89u8],
                    );
                    proof {
                        let rk_lit: [u8; 11] = [82u8, 69u8, 81u8, 85u8, 69u8, 83u8, 84u8, 95u8, 75u8, 69u8, 89u8];
                        assert(rk_lit@ =~= request_key_key());
                    }
                    if is_rk {
                        match parse_identity(container_params, e + 1, m) {
                            Some(k) => {
                                rk = k;
                            },
                            None => {
                                return Err(SbError::InvalidParameter);
                            },
                        }
                    }
                }
            }
            proof {
                assert(apply_pair(seg, old_pid, old_rk) == Ok::<_, SbError>((pid@, rk@)));
            }
            if m == n {
                break;
            }
            proof {
                assert(tail.skip(m - i + 1) =~= container_params@.skip(m + 1));
            }
            i = m + 1;
        }
        if is_zero_id(&pid) {
            return Err(SbError::InvalidParameter);
        }
        if is_zero_id(&rk) {
            return Err(SbError::InvalidParameter);
        }
        Ok(ContainerParams { program_id: pid, request_key: rk })
    }
}

} // verus!
