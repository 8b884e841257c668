use token_wallet_backend::codec::{decode, encode, FORMAT_VERSION, HEADER_LEN};
use token_wallet_backend::token::{PersistError, Token};

#[test]
fn encode_exact_layout() {
    let token = Token { id: 1, owner: vec![0xAB, 0xCD], balance: 1000 };
    let bytes = encode(&token).unwrap();
    assert_eq!(
        bytes,
        vec![
            1, // version tag
            1, 0, 0, 0, // id, little endian
            0xE8, 0x03, 0, 0, 0, 0, 0, 0, // balance 1000, little endian
            2,    // owner length
            0xAB, 0xCD, // owner bytes
        ]
    );
}

#[test]
fn round_trip_returns_identical_record() {
    let token = Token { id: 7, owner: vec![9, 8, 7, 6, 5], balance: u64::MAX };
    let bytes = encode(&token).unwrap();
    let back = decode(&bytes).unwrap();
    assert_eq!(back, token);
}

#[test]
fn round_trip_empty_owner() {
    let token = Token { id: u32::MAX, owner: vec![], balance: 0 };
    let bytes = encode(&token).unwrap();
    assert_eq!(bytes.len(), HEADER_LEN);
    let back = decode(&bytes).unwrap();
    assert_eq!(back.id, u32::MAX);
    assert_eq!(back.owner, Vec::<u8>::new());
    assert_eq!(back.balance, 0);
}

#[test]
fn round_trip_largest_owner() {
    let token = Token { id: 2, owner: vec![0x5A; 255], balance: 3 };
    let bytes = encode(&token).unwrap();
    assert_eq!(bytes.len(), HEADER_LEN + 255);
    let back = decode(&bytes).unwrap();
    assert_eq!(back.owner, vec![0x5A; 255]);
}

#[test]
fn encode_rejects_oversized_owner() {
    let token = Token { id: 1, owner: vec![0; 256], balance: 1000 };
    assert_eq!(encode(&token), Err(PersistError::EncodeFailed));
}

#[test]
fn decode_rejects_short_blob() {
    assert_eq!(decode(&vec![]), Err(PersistError::DecodeFailed));
    assert_eq!(decode(&vec![FORMAT_VERSION; HEADER_LEN - 1]), Err(PersistError::DecodeFailed));
}

#[test]
fn decode_rejects_wrong_version() {
    let token = Token { id: 1, owner: vec![1], balance: 2 };
    let mut bytes = encode(&token).unwrap();
    bytes[0] = FORMAT_VERSION.wrapping_add(1);
    assert_eq!(decode(&bytes), Err(PersistError::DecodeFailed));
}

#[test]
fn decode_rejects_length_mismatch() {
    let token = Token { id: 1, owner: vec![1, 2, 3], balance: 2 };
    let mut bytes = encode(&token).unwrap();
    bytes.pop();
    assert_eq!(decode(&bytes), Err(PersistError::DecodeFailed));
    let mut longer = encode(&token).unwrap();
    longer.push(0);
    assert_eq!(decode(&longer), Err(PersistError::DecodeFailed));
}
