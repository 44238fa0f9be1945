use solana_program::hash::hash;
use superior_randomness::{
    build_seed_instruction, decode_record, encode_record, load_account, run_oracle,
    ContainerParams, RequestAccountData, SbError,
};

fn sample_record() -> RequestAccountData {
    RequestAccountData {
        bump: 3,
        pubkey_hash: [1u8; 32],
        switchboard_request: [2u8; 32],
        seed: 0xA1B2C3D4,
        blockhash: [4u8; 32],
        result: [5u8; 32],
        request_timestamp: 100,
        seed_timestamp: 200,
        reveal_timestamp: 300,
    }
}

#[test]
fn test_record_codec_round_trip() {
    let rec = sample_record();
    let bytes = encode_record(&rec);
    assert_eq!(bytes.len(), 157);
    let back = decode_record(&bytes).unwrap();
    assert_eq!(back.bump, rec.bump);
    assert_eq!(back.pubkey_hash, rec.pubkey_hash);
    assert_eq!(back.switchboard_request, rec.switchboard_request);
    assert_eq!(back.seed, rec.seed);
    assert_eq!(back.blockhash, rec.blockhash);
    assert_eq!(back.result, rec.result);
    assert_eq!(back.request_timestamp, rec.request_timestamp);
    assert_eq!(back.seed_timestamp, rec.seed_timestamp);
    assert_eq!(back.reveal_timestamp, rec.reveal_timestamp);
}

// The layout is explicit: bump, commitment, request reference, seed (LE),
// anchor, result, then the three timestamps as little-endian 64-bit words.
#[test]
fn test_record_layout_offsets() {
    let rec = sample_record();
    let bytes = encode_record(&rec);
    assert_eq!(bytes[0], 3);
    assert_eq!(&bytes[1..33], &[1u8; 32]);
    assert_eq!(&bytes[33..65], &[2u8; 32]);
    assert_eq!(&bytes[65..69], &0xA1B2C3D4u32.to_le_bytes());
    assert_eq!(&bytes[69..101], &[4u8; 32]);
    assert_eq!(&bytes[101..133], &[5u8; 32]);
    assert_eq!(&bytes[133..141], &100u64.to_le_bytes());
    assert_eq!(&bytes[141..149], &200u64.to_le_bytes());
    assert_eq!(&bytes[149..157], &300u64.to_le_bytes());
}

#[test]
fn test_decode_record_wrong_length_fails() {
    assert!(matches!(decode_record(&vec![0u8; 156]), Err(SbError::AccountParseFailed)));
    assert!(matches!(decode_record(&vec![0u8; 158]), Err(SbError::AccountParseFailed)));
}

// A timestamp word beyond what a non-negative 64-bit ledger time can hold is
// rejected rather than reinterpreted.
#[test]
fn test_decode_record_negative_timestamp_fails() {
    let mut bytes = encode_record(&sample_record());
    bytes[140] = 0xFF;
    assert!(matches!(decode_record(&bytes), Err(SbError::AccountParseFailed)));
}

fn account_image(rec: &RequestAccountData) -> Vec<u8> {
    let mut data = hash(b"account:RequestAccountData").to_bytes()[..8].to_vec();
    data.extend_from_slice(&encode_record(rec));
    data
}

#[test]
fn test_load_account_round_trip() {
    let rec = sample_record();
    let owner = [9u8; 32];
    let data = account_image(&rec);
    let back = load_account(&owner, &owner, &data).unwrap();
    assert_eq!(back.seed, rec.seed);
    assert_eq!(back.reveal_timestamp, rec.reveal_timestamp);
}

#[test]
fn test_load_account_wrong_owner_fails() {
    let data = account_image(&sample_record());
    assert!(matches!(load_account(&[9u8; 32], &[8u8; 32], &data), Err(SbError::WrongAccountOwner)));
}

#[test]
fn test_load_account_short_data_fails() {
    let owner = [9u8; 32];
    assert!(matches!(load_account(&owner, &owner, &vec![1u8; 7]), Err(SbError::MissingDiscriminator)));
}

#[test]
fn test_load_account_wrong_discriminator_fails() {
    let owner = [9u8; 32];
    let mut data = account_image(&sample_record());
    data[0] ^= 1;
    assert!(matches!(load_account(&owner, &owner, &data), Err(SbError::DiscriminatorMismatch)));
}

// The outbound Seed call: dispatch tag from `global:seed`, the sampled value
// in little-endian form, and the four accounts in their documented order.
#[test]
fn test_build_seed_instruction_layout() {
    let params = ContainerParams { program_id: [1u8; 32], request_key: [2u8; 32] };
    let ix = build_seed_instruction(&params, &[3u8; 32], &[4u8; 32], &[5u8; 32], 777);
    assert_eq!(ix.program_id, [1u8; 32]);
    assert_eq!(ix.data.len(), 12);
    assert_eq!(&ix.data[..8], &hash(b"global:seed").to_bytes()[..8]);
    assert_eq!(&ix.data[8..], &777u32.to_le_bytes());
    assert_eq!(ix.accounts.len(), 4);
    assert_eq!(ix.accounts[0].pubkey, [2u8; 32]);
    assert!(ix.accounts[0].is_writable && !ix.accounts[0].is_signer);
    assert_eq!(ix.accounts[1].pubkey, [3u8; 32]);
    assert!(!ix.accounts[1].is_writable && !ix.accounts[1].is_signer);
    assert_eq!(ix.accounts[2].pubkey, [4u8; 32]);
    assert!(ix.accounts[2].is_writable && !ix.accounts[2].is_signer);
    assert_eq!(ix.accounts[3].pubkey, [5u8; 32]);
    assert!(!ix.accounts[3].is_writable && ix.accounts[3].is_signer);
}

// One full oracle run: decode the routing buffer, sample, emit the call.
#[test]
fn test_run_oracle_end_to_end() {
    let p = [1u8; 32];
    let r = [2u8; 32];
    let buf = superior_randomness::encode_params(&p, &r);
    let ix = run_oracle(&buf, &[3u8; 32], &[4u8; 32], &[5u8; 32]).unwrap();
    assert_eq!(ix.program_id, p);
    assert_eq!(ix.accounts[0].pubkey, r);
    assert_eq!(&ix.data[..8], &hash(b"global:seed").to_bytes()[..8]);
    let sampled = u32::from_le_bytes(ix.data[8..12].try_into().unwrap());
    assert!(sampled <= 50_000_000);
}

#[test]
fn test_run_oracle_bad_params_fails() {
    let r = run_oracle(&b"PID=,REQUEST_KEY=".to_vec(), &[3u8; 32], &[4u8; 32], &[5u8; 32]);
    assert!(matches!(r, Err(SbError::InvalidParameter)));
}
