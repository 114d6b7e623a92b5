use chainlink_feed::client::ChainlinkContract;
use chainlink_feed::decimal::decimal_string;
use chainlink_feed::error::{settle, CallOutcome, ContractCallError};
use chainlink_feed::round::{RawRound, Round};
use ethers::types::U256;
use std::time::Duration;

fn raw_round(round_id: u128, answer: u128, started_at: u64, updated_at: u64, answered_in_round: u128) -> RawRound {
    (round_id, answer, U256::from(started_at), U256::from(updated_at), answered_in_round)
}

fn human_answer(round: &Round) -> f64 {
    let float_answer: f64 = round.answer_text().parse().unwrap();
    float_answer / 10f64.powi(round.decimals.into())
}

fn client(identifier: &str, decimals: u64) -> ChainlinkContract {
    match ChainlinkContract::new(identifier.to_string(), Duration::from_secs(10), CallOutcome::Returned(decimals)) {
        Ok(c) => c,
        Err(e) => panic!("{}", e.message()),
    }
}

#[test]
fn valid_answer() {
    let chainlink_contract = client("ETH", 8);
    let price_data = chainlink_contract
        .latest_round_data(CallOutcome::Returned(raw_round(7, 312345678900, 1000, 1005, 7)))
        .ok()
        .unwrap();
    assert!(human_answer(&price_data).ge(&0f64));
}

#[test]
fn scale_eight_answer() {
    let c = client("ETH/USD", 8);
    assert_eq!(c.decimals, 8);
    let round = c
        .latest_round_data(CallOutcome::Returned(raw_round(42, 312345678900, 1000, 1005, 42)))
        .ok()
        .unwrap();
    assert_eq!(round.identifier, "ETH/USD");
    assert_eq!(round.round_id, 42);
    assert_eq!(round.answered_in_round, 42);
    assert_eq!(round.started_at, U256::from(1000u64));
    assert_eq!(round.updated_at, U256::from(1005u64));
    assert_eq!(round.raw_answer, 312345678900);
    assert_eq!(round.answer_text(), "312345678900");
    assert!((human_answer(&round) - 3123.456789).abs() < 1e-9);
}

#[test]
fn tuple_fields_keep_their_places() {
    let c = client("BTC", 0);
    let round = c
        .latest_round_data(CallOutcome::Returned(raw_round(5, 77, 11, 12, 4)))
        .ok()
        .unwrap();
    assert_eq!(round.round_id, 5);
    assert_eq!(round.raw_answer, 77);
    assert_eq!(round.started_at, U256::from(11u64));
    assert_eq!(round.updated_at, U256::from(12u64));
    assert_eq!(round.answered_in_round, 4);
    assert_eq!(human_answer(&round), 77.0);
}

#[test]
fn timeout_fails_construction() {
    let r = ChainlinkContract::new("ETH".to_string(), Duration::from_nanos(1), CallOutcome::Elapsed);
    assert!(matches!(r, Err(ContractCallError::Timeout)));
}

#[test]
fn timeout_fails_query() {
    let c = client("ETH", 8);
    let r = c.latest_round_data(CallOutcome::Elapsed);
    assert!(matches!(r, Err(ContractCallError::Timeout)));
}

#[test]
fn client_usable_after_timeout() {
    let c = client("ETH", 8);
    assert!(matches!(c.latest_round_data(CallOutcome::Elapsed), Err(ContractCallError::Timeout)));
    let round = c
        .latest_round_data(CallOutcome::Returned(raw_round(43, 100000000, 2000, 2001, 43)))
        .ok()
        .unwrap();
    assert_eq!(round.round_id, 43);
    assert_eq!(human_answer(&round), 1.0);
}

#[test]
fn schema_error_fails_construction() {
    let r = ChainlinkContract::new(
        "ETH".to_string(),
        Duration::from_secs(10),
        CallOutcome::Unencodable("no such function: decimal".to_string()),
    );
    match r {
        Err(ContractCallError::Abi(m)) => assert_eq!(m, "no such function: decimal"),
        _ => panic!("expected a schema error"),
    }
}

#[test]
fn remote_failure_fails_query() {
    let c = client("ETH", 8);
    match c.latest_round_data(CallOutcome::Failed("execution reverted".to_string())) {
        Err(ContractCallError::Contract(m)) => assert_eq!(m, "execution reverted"),
        _ => panic!("expected a contract error"),
    }
}

#[test]
fn settle_passes_value_through() {
    assert!(matches!(settle(CallOutcome::Returned(9u8)), Ok(9)));
    assert!(matches!(settle::<u8>(CallOutcome::Elapsed), Err(ContractCallError::Timeout)));
}

#[test]
fn scale_is_low_byte_of_raw_decimals() {
    assert_eq!(client("A", 18).decimals, 18);
    assert_eq!(client("A", 255).decimals, 255);
    assert_eq!(client("A", 264).decimals, 8);
    assert_eq!(client("A", 0).decimals, 0);
}

#[test]
fn largest_scale_still_normalises() {
    let c = client("A", 255);
    let round = c
        .latest_round_data(CallOutcome::Returned(raw_round(1, 0, 0, 0, 1)))
        .ok()
        .unwrap();
    assert_eq!(round.answer_text(), "0");
    assert_eq!(human_answer(&round), 0.0);
}

#[test]
fn decimal_strings() {
    assert_eq!(decimal_string(0), "0");
    assert_eq!(decimal_string(7), "7");
    assert_eq!(decimal_string(10), "10");
    assert_eq!(decimal_string(1005), "1005");
    assert_eq!(decimal_string(u128::MAX), u128::MAX.to_string());
    assert_eq!(decimal_string(u128::MAX), "340282366920938463463374607431768211455");
}

#[test]
fn decimal_string_matches_display() {
    for n in [1u128, 9, 99, 100, 123456789, 1 << 64, 1 << 100] {
        assert_eq!(decimal_string(n), n.to_string());
    }
}

#[test]
fn error_messages() {
    assert_eq!(ContractCallError::Abi("bad".to_string()).message(), "Abi error: bad");
    assert_eq!(ContractCallError::Timeout.message(), "Timeout error: future has timed out");
    assert_eq!(ContractCallError::Contract("down".to_string()).message(), "Contract error: down");
}
