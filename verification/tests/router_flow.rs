use wager_market::codec::{decode_market, encode_market, encode_wager};
use wager_market::errors::{EngineError, ValidationError};
use wager_market::model::{BetOutcome, MarketState, Record, WagerRecord};
use wager_market::router::route;

fn id_of(b: u8) -> Vec<u8> {
    vec![b; 32]
}

fn program_record(pid: &[u8], key: u8, balance: u64, data_len: usize) -> Record {
    Record {
        key: id_of(key),
        owner: pid.to_vec(),
        is_signer: false,
        balance,
        data: vec![0u8; data_len],
    }
}

fn signer_record(key: u8) -> Record {
    Record { key: id_of(key), owner: id_of(0), is_signer: true, balance: 0, data: Vec::new() }
}

fn request(opcode: u8, payload: &[u8]) -> Vec<u8> {
    let mut r = vec![opcode];
    r.extend_from_slice(payload);
    r
}

fn create_payload(creator: u8, name: &str, description: &str) -> Vec<u8> {
    encode_market(&MarketState {
        creator: id_of(creator),
        name: name.as_bytes().to_vec(),
        description: description.as_bytes().to_vec(),
        total_pool: 0,
        party1_pool: 0,
        party2_pool: 0,
        outcome: BetOutcome { party1_result: false, party2_result: false },
    })
}

fn wager_payload(bettor: u8, market_key: u8, party1: bool, party2: bool) -> Vec<u8> {
    encode_wager(&WagerRecord {
        bettor: id_of(bettor),
        amount: 0,
        market_ref: id_of(market_key),
        party1,
        party2,
        claimed: false,
    })
}

#[test]
fn full_market_lifecycle_through_router() {
    let pid = id_of(7);
    let mut market = program_record(&pid, 9, 100_000, 256);
    let mut unused_a = program_record(&pid, 20, 0, 0);
    let mut unused_b = program_record(&pid, 21, 0, 0);

    // Create the Derby market: all pools start at zero.
    let creator = signer_record(1);
    let r = route(&pid, &mut market, &mut unused_a, &mut unused_b, &creator,
        &request(0, &create_payload(1, "Derby", "Horse race 2024")), 100);
    assert_eq!(r, Ok(()));
    let state = decode_market(&market.data).unwrap();
    assert_eq!((state.total_pool, state.party1_pool, state.party2_pool), (0, 0, 0));

    // 1000 units on party 1.
    let mut funding1 = program_record(&pid, 10, 1000, 0);
    let mut wager1 = program_record(&pid, 11, 100_000, 100);
    let r = route(&pid, &mut market, &mut funding1, &mut wager1, &signer_record(2),
        &request(1, &wager_payload(2, 9, true, false)), 100);
    assert_eq!(r, Ok(()));
    let state = decode_market(&market.data).unwrap();
    assert_eq!((state.total_pool, state.party1_pool, state.party2_pool), (1000, 1000, 0));

    // 500 units on party 2.
    let mut funding2 = program_record(&pid, 12, 500, 0);
    let mut wager2 = program_record(&pid, 13, 100_000, 100);
    let r = route(&pid, &mut market, &mut funding2, &mut wager2, &signer_record(3),
        &request(1, &wager_payload(3, 9, false, true)), 100);
    assert_eq!(r, Ok(()));
    let state = decode_market(&market.data).unwrap();
    assert_eq!((state.total_pool, state.party1_pool, state.party2_pool), (1500, 1000, 500));
    assert_eq!(state.total_pool, state.party1_pool + state.party2_pool);

    // An unknown opcode is rejected and touches nothing.
    let market_before = market.clone();
    let r = route(&pid, &mut market, &mut unused_a, &mut unused_b, &creator,
        &request(9, &[]), 100);
    assert_eq!(r, Err(EngineError::Validation(ValidationError::UnknownOpcode)));
    assert_eq!(market, market_before);

    // Settle for party 1, then claim the winning wager.
    let r = route(&pid, &mut market, &mut unused_a, &mut unused_b, &creator,
        &request(2, &[1, 0]), 100);
    assert_eq!(r, Ok(()));

    let mut payout = program_record(&pid, 14, 0, 0);
    let balance_before = market.balance;
    let r = route(&pid, &mut market, &mut wager1, &mut payout, &signer_record(2),
        &request(3, &[]), 100);
    assert_eq!(r, Ok(()));
    assert_eq!(payout.balance, 1000);
    assert_eq!(market.balance, balance_before - 1000);
}

#[test]
fn empty_request_rejected() {
    let pid = id_of(7);
    let mut market = program_record(&pid, 9, 100_000, 256);
    let before = market.clone();
    let mut a = program_record(&pid, 20, 0, 0);
    let mut b = program_record(&pid, 21, 0, 0);
    let r = route(&pid, &mut market, &mut a, &mut b, &signer_record(1), &Vec::new(), 100);
    assert_eq!(r, Err(EngineError::Validation(ValidationError::EmptyRequest)));
    assert_eq!(market, before);
}

#[test]
fn router_forwards_payload_verbatim() {
    let pid = id_of(7);
    let mut market = program_record(&pid, 9, 100_000, 256);
    let mut a = program_record(&pid, 20, 0, 0);
    let mut b = program_record(&pid, 21, 0, 0);
    // A short-name payload must fail with the same tag through the
    // router as through the handler itself.
    let r = route(&pid, &mut market, &mut a, &mut b, &signer_record(1),
        &request(0, &create_payload(1, "Derb", "Horse race 2024")), 100);
    assert_eq!(r, Err(EngineError::Validation(ValidationError::FieldTooShort)));
}
