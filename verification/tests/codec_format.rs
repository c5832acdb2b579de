use wager_market::codec::{decode_market, decode_outcome, decode_wager, encode_market,
    encode_wager};
use wager_market::errors::EngineError;
use wager_market::model::{BetOutcome, MarketState, WagerRecord};

fn sample_market() -> MarketState {
    MarketState {
        creator: vec![5u8; 32],
        name: b"Derby".to_vec(),
        description: b"Horse race 2024".to_vec(),
        total_pool: 1500,
        party1_pool: 1000,
        party2_pool: 500,
        outcome: BetOutcome { party1_result: true, party2_result: false },
    }
}

fn sample_wager() -> WagerRecord {
    WagerRecord {
        bettor: vec![2u8; 32],
        amount: 1000,
        market_ref: vec![9u8; 32],
        party1: true,
        party2: false,
        claimed: false,
    }
}

#[test]
fn market_round_trip() {
    let m = sample_market();
    let bytes = encode_market(&m);
    let back = decode_market(&bytes).unwrap();
    assert_eq!(back, m);
}

#[test]
fn wager_round_trip() {
    let w = sample_wager();
    let bytes = encode_wager(&w);
    let back = decode_wager(&bytes).unwrap();
    assert_eq!(back, w);
}

#[test]
fn market_round_trip_survives_trailing_bytes() {
    let m = sample_market();
    let mut bytes = encode_market(&m);
    bytes.extend_from_slice(&[0u8; 64]);
    let back = decode_market(&bytes).unwrap();
    assert_eq!(back, m);
}

#[test]
fn market_encoding_layout_is_exact() {
    let m = sample_market();
    let bytes = encode_market(&m);
    // creator | u32 name len | name | u32 description len | description
    // | three u64 pools | two outcome bytes
    let mut expected: Vec<u8> = Vec::new();
    expected.extend_from_slice(&[5u8; 32]);
    expected.extend_from_slice(&5u32.to_le_bytes());
    expected.extend_from_slice(b"Derby");
    expected.extend_from_slice(&15u32.to_le_bytes());
    expected.extend_from_slice(b"Horse race 2024");
    expected.extend_from_slice(&1500u64.to_le_bytes());
    expected.extend_from_slice(&1000u64.to_le_bytes());
    expected.extend_from_slice(&500u64.to_le_bytes());
    expected.push(1);
    expected.push(0);
    assert_eq!(bytes, expected);
}

#[test]
fn market_encoding_matches_borsh() {
    let m = sample_market();
    let tuple = (
        [5u8; 32],
        "Derby".to_string(),
        "Horse race 2024".to_string(),
        1500u64,
        1000u64,
        500u64,
        true,
        false,
    );
    assert_eq!(encode_market(&m), borsh::to_vec(&tuple).unwrap());
}

#[test]
fn wager_encoding_matches_borsh() {
    let w = sample_wager();
    let tuple = ([2u8; 32], 1000u64, [9u8; 32], true, false, false);
    assert_eq!(encode_wager(&w), borsh::to_vec(&tuple).unwrap());
}

#[test]
fn truncated_market_rejected() {
    let m = sample_market();
    let mut bytes = encode_market(&m);
    bytes.truncate(bytes.len() - 1);
    assert_eq!(decode_market(&bytes), Err(EngineError::Decode));
}

#[test]
fn overlong_name_length_prefix_rejected() {
    let m = sample_market();
    let mut bytes = encode_market(&m);
    // Declare a name length that overruns the remaining bytes.
    bytes[32] = 0xff;
    bytes[33] = 0xff;
    assert_eq!(decode_market(&bytes), Err(EngineError::Decode));
}

#[test]
fn bad_outcome_byte_rejected() {
    let m = sample_market();
    let mut bytes = encode_market(&m);
    let last = bytes.len() - 1;
    bytes[last] = 2;
    assert_eq!(decode_market(&bytes), Err(EngineError::Decode));
}

#[test]
fn truncated_wager_rejected() {
    let bytes = vec![0u8; 74];
    assert_eq!(decode_wager(&bytes), Err(EngineError::Decode));
}

#[test]
fn outcome_payload_decoding() {
    assert_eq!(
        decode_outcome(&vec![1u8, 0u8]),
        Ok(BetOutcome { party1_result: true, party2_result: false })
    );
    assert_eq!(decode_outcome(&vec![1u8]), Err(EngineError::Decode));
    assert_eq!(decode_outcome(&vec![3u8, 0u8]), Err(EngineError::Decode));
}
