use std::str::FromStr;

use solana_program::pubkey::Pubkey;
use superior_randomness::{encode_params, ContainerParams, SbError};

const TOKEN_ID: &str = "TokenkegQfeZyiNwAJbNbGKPFXCWuBvf9Ss623VQ5DA";

#[test]
fn test_params_decode() {
    let id = Pubkey::from_str(TOKEN_ID).unwrap();
    let request_params_string = format!("PID={},REQUEST_KEY={}", id, id);
    let request_params_bytes = request_params_string.into_bytes();

    let params = ContainerParams::decode(&request_params_bytes).unwrap();

    assert_eq!(params.program_id, id.to_bytes());
    assert_eq!(params.request_key, id.to_bytes());
}

// A buffer whose second pair uses the wrong key name leaves REQUEST_KEY
// unset, so decoding fails.
#[test]
fn test_params_decode_wrong_key_name_fails() {
    let id = Pubkey::from_str(TOKEN_ID).unwrap();
    let s = format!("PID={},REQUEST={}", id, id).into_bytes();
    assert!(matches!(ContainerParams::decode(&s), Err(SbError::InvalidParameter)));
}

#[test]
fn test_params_decode_missing_pid_fails() {
    let id = Pubkey::from_str(TOKEN_ID).unwrap();
    let s = format!("REQUEST_KEY={}", id).into_bytes();
    assert!(matches!(ContainerParams::decode(&s), Err(SbError::InvalidParameter)));
}

#[test]
fn test_params_decode_missing_request_key_fails() {
    let id = Pubkey::from_str(TOKEN_ID).unwrap();
    let s = format!("PID={}", id).into_bytes();
    assert!(matches!(ContainerParams::decode(&s), Err(SbError::InvalidParameter)));
}

// A required key left at the zero identity counts as unset.
#[test]
fn test_params_decode_zero_identity_fails() {
    let id = Pubkey::from_str(TOKEN_ID).unwrap();
    let zero = Pubkey::default();
    let s = format!("PID={},REQUEST_KEY={}", id, zero).into_bytes();
    assert!(matches!(ContainerParams::decode(&s), Err(SbError::InvalidParameter)));
}

// A value that is not base58, or not 32 bytes, is malformed.
#[test]
fn test_params_decode_malformed_value_fails() {
    let id = Pubkey::from_str(TOKEN_ID).unwrap();
    let s = format!("PID={},REQUEST_KEY=!!!", id).into_bytes();
    assert!(matches!(ContainerParams::decode(&s), Err(SbError::InvalidParameter)));
    let s2 = format!("PID=abc,REQUEST_KEY={}", id).into_bytes();
    assert!(matches!(ContainerParams::decode(&s2), Err(SbError::InvalidParameter)));
}

#[test]
fn test_params_decode_empty_fails() {
    assert!(matches!(ContainerParams::decode(&Vec::new()), Err(SbError::InvalidParameter)));
}

// A later pair overrides an earlier one, as in a last-wins environment list.
#[test]
fn test_params_decode_last_wins() {
    let a = Pubkey::new_from_array([1u8; 32]);
    let b = Pubkey::new_from_array([2u8; 32]);
    let c = Pubkey::new_from_array([3u8; 32]);
    let s = format!("PID={},PID={},REQUEST_KEY={}", a, b, c).into_bytes();
    let params = ContainerParams::decode(&s).unwrap();
    assert_eq!(params.program_id, b.to_bytes());
    assert_eq!(params.request_key, c.to_bytes());
}

// Encoding two identities and decoding the buffer gives them back exactly.
#[test]
fn test_encode_params_round_trip() {
    let p = [7u8; 32];
    let r = [9u8; 32];
    let buf = encode_params(&p, &r);
    assert!(buf.len() <= 512);
    let expected = format!(
        "PID={},REQUEST_KEY={}",
        Pubkey::new_from_array(p),
        Pubkey::new_from_array(r)
    );
    assert_eq!(buf, expected.into_bytes());
    let params = ContainerParams::decode(&buf).unwrap();
    assert_eq!(params.program_id, p);
    assert_eq!(params.request_key, r);
}
