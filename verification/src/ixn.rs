//! Plain-value models of ledger instructions: the outbound Seed call the
//! oracle emits, and the companion ed25519 signature-verification
//! instruction the reveal phase compares against, reconstructed byte for
//! byte from its documented wire layout.

use vstd::prelude::*;
use vstd::bytes::{spec_u16_to_le_bytes, u16_to_le_bytes, spec_u32_to_le_bytes, u32_to_le_bytes};
use crate::{ContainerParams, SbError, spec_decode, digest_of, hashing};

verus! {

/// The ed25519 signature-verification program's identity (the base58 text
/// `Ed25519SigVerify111111111111111111111111111`).
pub const ED25519_PROGRAM_ID: [u8; 32] = [
    3u8, 125u8, 70u8, 214u8, 124u8, 147u8, 251u8, 190u8, 18u8, 249u8, 66u8, 143u8, 131u8, 141u8,
    64u8, 255u8, 5u8, 112u8, 116u8, 73u8, 39u8, 244u8, 138u8, 100u8, 252u8, 202u8, 112u8, 68u8,
    128u8, 0u8, 0u8, 0u8,
];

/// One account an instruction touches, with its access flags.
#[derive(Clone, Copy, Debug)]
pub struct AccountMetaData {
    pub pubkey: [u8; 32],
    pub is_signer: bool,
    pub is_writable: bool,
}

/// A ledger instruction as plain values: target program, accounts, data.
#[derive(Clone, Debug)]
pub struct InstructionData {
    pub program_id: [u8; 32],
    pub accounts: Vec<AccountMetaData>,
    pub data: Vec<u8>,
}

impl AccountMetaData {
    /// Compares two account entries field by field.
    pub fn same_account(&self, other: &AccountMetaData) -> (r: bool)
        ensures
            r <==> *self == *other,
    {
        let r = crate::id_eq(&self.pubkey, &other.pubkey) && self.is_signer == other.is_signer
            && self.is_writable == other.is_writable;
        proof {
            if self.pubkey@ == other.pubkey@ {
                assert(self.pubkey =~= other.pubkey);
            }
        }
        r
    }
}

impl InstructionData {
    /// The whole instruction as one mathematical value.
    pub open spec fn view_tuple(self) -> (Seq<u8>, Seq<AccountMetaData>, Seq<u8>) {
        (self.program_id@, self.accounts@, self.data@)
    }

    /// Compares two instructions by value: target program, account list with
    /// flags, and data bytes must all agree.
    pub fn same_instruction(&self, other: &InstructionData) -> (r: bool)
        ensures
            r <==> self.view_tuple() == other.view_tuple(),
    {
        if !crate::id_eq(&self.program_id, &other.program_id) {
            return false;
        }
        if self.accounts.len() != other.accounts.len() {
            proof {
                assert(self.accounts@.len() != other.accounts@.len());
            }
            return false;
        }
        let mut i: usize = 0;
        while i < self.accounts.len()
            invariant
                i <= self.accounts@.len(),
                self.accounts@.len() == other.accounts@.len(),
                self.program_id@ == other.program_id@,
                forall|j: int| 0 <= j < i ==> self.accounts@[j] == other.accounts@[j],
            decreases self.accounts@.len() - i,
        {
            if !self.accounts[i].same_account(&other.accounts[i]) {
                return false;
            }
            i = i + 1;
        }
        proof {
            assert(self.accounts@ =~= other.accounts@);
        }
        if self.data.len() != other.data.len() {
            proof {
                assert(self.data@.len() != other.data@.len());
            }
            return false;
        }
        let mut k: usize = 0;
        while k < self.data.len()
            invariant
                k <= self.data@.len(),
                self.accounts@ == other.accounts@,
                self.program_id@ == other.program_id@,
                self.data@.len() == other.data@.len(),
                forall|j: int| 0 <= j < k ==> self.data@[j] == other.data@[j],
            decreases self.data@.len() - k,
        {
            if self.data[k] != other.data[k] {
                return false;
            }
            k = k + 1;
        }
        proof {
            assert(self.data@ =~= other.data@);
        }
        true
    }
}

/// The byte layout of an ed25519 verification instruction carrying one
/// signature: a count and padding byte, seven little-endian 16-bit offsets,
/// then the public key, the signature, and the message, all inside this same
/// instruction.
pub open spec fn spec_ed25519_verify_data(pubkey: Seq<u8>, msg: Seq<u8>, sig: Seq<u8>) -> Seq<
    u8,
> {
    seq![1u8, 0u8] + spec_u16_to_le_bytes(48u16) + spec_u16_to_le_bytes(65535u16)
        + spec_u16_to_le_bytes(16u16) + spec_u16_to_le_bytes(65535u16) + spec_u16_to_le_bytes(
        112u16,
    ) + spec_u16_to_le_bytes(msg.len() as u16) + spec_u16_to_le_bytes(65535u16) + pubkey + sig
        + msg
}

/// Builds the companion ed25519 verification instruction the reveal phase
/// expects: one signature over `msg` under `pubkey`, all data in place, no
/// accounts, addressed to the ed25519 program.
pub fn build_ed25519_verify_instruction(
    pubkey: &[u8; 32],
    msg: &Vec<u8>,
    sig: &[u8; 64],
) -> (r: InstructionData)
    requires
        msg@.len() <= 65535,
    ensures
        r.program_id@ == ED25519_PROGRAM_ID@,
        r.accounts@ == Seq::<AccountMetaData>::empty(),
        r.data@ == spec_ed25519_verify_data(pubkey@, msg@, sig@),
{
    let mut data: Vec<u8> = Vec::new();
    data.push(1u8);
    data.push(0u8);
    let o1 = u16_to_le_bytes(48u16);
    data.extend_from_slice(o1.as_slice());
    let o2 = u16_to_le_bytes(65535u16);
    data.extend_from_slice(o2.as_slice());
    let o3 = u16_to_le_bytes(16u16);
    data.extend_from_slice(o3.as_slice());
    let o4 = u16_to_le_bytes(65535u16);
    data.extend_from_slice(o4.as_slice());
    let o5 = u16_to_le_bytes(112u16);
    data.extend_from_slice(o5.as_slice());
    let o6 = u16_to_le_bytes(msg.len() as u16);
    data.extend_from_slice(o6.as_slice());
    let o7 = u16_to_le_bytes(65535u16);
    data.extend_from_slice(o7.as_slice());
    data.extend_from_slice(pubkey.as_slice());
    data.extend_from_slice(sig.as_slice());
    data.extend_from_slice(msg.as_slice());
    proof {
        assert(data@ =~= spec_ed25519_verify_data(pubkey@, msg@, sig@));
    }
    InstructionData { program_id: ED25519_PROGRAM_ID, accounts: Vec::new(), data }
}

/// The preimage of the Seed call's dispatch tag, the text `global:seed`.
pub open spec fn seed_tag_preimage() -> Seq<u8> {
    seq![103u8, 108u8, 111u8, 98u8, 97u8, 108u8, 58u8, 115u8, 101u8, 101u8, 100u8]
}

/// The data of the outbound Seed call: the first eight bytes of the digest
/// of `global:seed`, then the sampled value in little-endian form.
pub open spec fn spec_seed_ixn_data(rand_seed: u32) -> Seq<u8> {
    digest_of(seed_tag_preimage()).take(8) + spec_u32_to_le_bytes(rand_seed)
}

/// Builds the one outbound call the oracle emits: the Seed invocation of the
/// target program, carrying the sampled value and addressing the record, the
/// attested function, the function's request entry, and the enclave signer.
/// With twelve bytes of data and four accounts the call stays far inside the
/// service's serialized payload ceiling of about 700 bytes.
pub fn build_seed_instruction(
    params: &ContainerParams,
    function_key: &[u8; 32],
    function_request_key: &[u8; 32],
    enclave_signer: &[u8; 32],
    rand_seed: u32,
) -> (r: InstructionData)
    ensures
        r.program_id@ == params.program_id@,
        r.data@ == spec_seed_ixn_data(rand_seed),
        r.accounts@.len() == 4,
        r.accounts@[0] == (AccountMetaData {
            pubkey: params.request_key,
            is_signer: false,
            is_writable: true,
        }),
        r.accounts@[1] == (AccountMetaData {
            pubkey: *function_key,
            is_signer: false,
            is_writable: false,
        }),
        r.accounts@[2] == (AccountMetaData {
            pubkey: *function_request_key,
            is_signer: false,
            is_writable: true,
        }),
        r.accounts@[3] == (AccountMetaData {
            pubkey: *enclave_signer,
            is_signer: true,
            is_writable: false,
        }),
{
    let pre: [u8; 11] = [103u8, 108u8, 111u8, 98u8, 97u8, 108u8, 58u8, 115u8, 101u8, 101u8, 100u8];
    proof {
        assert(pre@ =~= seed_tag_preimage());
    }
    let d = hashing::sha256(pre.as_slice());
    let mut data: Vec<u8> = Vec::new();
    let mut i: usize = 0;
    while i < 8
        invariant
            i <= 8,
            data@ =~= d@.take(i as int),
            d@ == digest_of(seed_tag_preimage()),
        decreases 8 - i,
    {
        data.push(d[i]);
        i = i + 1;
    }
    let le = u32_to_le_bytes(rand_seed);
    data.extend_from_slice(le.as_slice());
    proof {
        assert(data@ =~= spec_seed_ixn_data(rand_seed));
    }
    let mut accounts: Vec<AccountMetaData> = Vec::new();
    accounts.push(
        AccountMetaData { pubkey: params.request_key, is_signer: false, is_writable: true },
    );
    accounts.push(AccountMetaData { pubkey: *function_key, is_signer: false, is_writable: false });
    accounts.push(
        AccountMetaData { pubkey: *function_request_key, is_signer: false, is_writable: true },
    );
    accounts.push(
        AccountMetaData { pubkey: *enclave_signer, is_signer: true, is_writable: false },
    );
    InstructionData { program_id: params.program_id, accounts, data }
}

/// One full run of the oracle's decision logic: decode the routing buffer,
/// draw and reduce entropy, and build the single outbound Seed call. Fails
/// exactly when the routing buffer does; the emitted call then addresses the
/// decoded program and record, and carries some sampled value within the
/// service's fixed range.
pub fn run_oracle(
    container_params: &Vec<u8>,
    function_key: &[u8; 32],
    function_request_key: &[u8; 32],
    enclave_signer: &[u8; 32],
) -> (r: Result<InstructionData, SbError>)
    ensures
        (match r {
            Ok(ix) => (match spec_decode(container_params@) {
                Ok(pr) => {
                    &&& ix.program_id@ == pr.0
                    &&& ix.accounts@.len() == 4
                    &&& ix.accounts@[0].pubkey@ == pr.1
                    &&& ix.accounts@[1].pubkey@ == function_key@
                    &&& ix.accounts@[2].pubkey@ == function_request_key@
                    &&& ix.accounts@[3].pubkey@ == enclave_signer@
                    &&& exists|v: u32| v <= 50000000 && ix.data@ == spec_seed_ixn_data(v)
                },
                Err(_) => false,
            }),
            Err(e) => spec_decode(container_params@) == Err::<(Seq<u8>, Seq<u8>), SbError>(e),
        }),
{
    let params = match ContainerParams::decode(container_params) {
        Ok(p) => p,
        Err(e) => {
            return Err(e);
        },
    };
    let rand_seed = crate::generate_randomness(0, 50000000);
    let ix = build_seed_instruction(
        &params,
        function_key,
        function_request_key,
        enclave_signer,
        rand_seed,
    );
    proof {
        assert(rand_seed <= 50000000 && ix.data@ == spec_seed_ixn_data(rand_seed));
    }
    Ok(ix)
}

} // verus!
