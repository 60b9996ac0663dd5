use sandwich_bot::amm::MIN_PRICE_IMPACT_PPM;
use sandwich_bot::config::Config;
use sandwich_bot::opportunity::OpportunityDetector;
use sandwich_bot::swap::{parse_swap_instruction, read_u64_le, swap_instruction_data, ParseError};
use sandwich_bot::types::{Address, DexType, PoolInfo, Signature, Transaction};
use sandwich_bot::utils::parse_pubkey;

const SOL: u64 = 1_000_000_000;
const RAYDIUM: &str = "675kPX9MHTjS2zt1qfr1NYHuzeLXfQM9H24wFSUt1Mp8";
const ORCA: &str = "whirLbMiicVdio4qvUfM5KAg6Ct8VwpYzGff3uctyCc";

fn address(byte: u8) -> Address {
    Address { bytes: [byte; 32] }
}

fn swap_payload(amount_in: u64, minimum_out: u64) -> Vec<u8> {
    let mut data = vec![9u8];
    data.extend_from_slice(&amount_in.to_le_bytes());
    data.extend_from_slice(&minimum_out.to_le_bytes());
    data
}

fn transaction(program: Address, data: Vec<u8>, n_accounts: u8) -> Transaction {
    Transaction {
        signature: Signature { bytes: [42; 64] },
        accounts: (0..n_accounts).map(|i| address(i + 1)).collect(),
        program_id: program,
        data,
        slot: 250_000_000,
    }
}

fn raydium_swap(amount_in: u64) -> Transaction {
    let program = parse_pubkey(RAYDIUM).unwrap();
    transaction(program, swap_payload(amount_in, 1), 4)
}

fn pool(reserve_a: u64, reserve_b: u64) -> PoolInfo {
    PoolInfo {
        address: address(2),
        token_a: address(3),
        token_b: address(4),
        reserve_a,
        reserve_b,
        liquidity_usd: 100_000,
    }
}

fn detector() -> OpportunityDetector {
    OpportunityDetector::new(Config::default())
}

#[test]
fn large_target_is_bracketed() {
    let tx = raydium_swap(50 * SOL);
    let opp = detector().analyze(&tx, &pool(1000 * SOL, 100 * SOL)).expect("opportunity");
    assert_eq!(opp.dex, DexType::Raydium);
    assert_eq!(opp.price_impact, 92970);
    assert!(opp.price_impact >= MIN_PRICE_IMPACT_PPM);
    assert_eq!(opp.front_run_amount, SOL);
    assert_eq!(opp.back_run_amount, SOL);
    assert_eq!(opp.estimated_profit, 100_340_100);
    assert_eq!(opp.amount, 50 * SOL);
    assert_eq!(opp.token_in, address(3));
    assert_eq!(opp.token_out, address(4));
    assert_eq!(opp.target_transaction.signature, tx.signature);
    assert_eq!(opp.target_transaction.data, tx.data);
    assert_eq!(opp.target_transaction.accounts, tx.accounts);
    assert_eq!(opp.target_transaction.slot, tx.slot);
}

#[test]
fn small_target_is_left_alone() {
    let d = detector();
    let p = pool(1000 * SOL, 100 * SOL);
    assert!(d.calculate_price_impact(&p, SOL, true) < MIN_PRICE_IMPACT_PPM);
    assert!(d.analyze(&raydium_swap(SOL), &p).is_none());
}

#[test]
fn unknown_program_gives_no_opportunity() {
    let d = detector();
    let tx = transaction(address(7), swap_payload(50 * SOL, 1), 4);
    assert_eq!(d.identify_dex(&tx), None);
    assert!(d.target_swap(&tx).is_none());
    assert!(d.analyze(&tx, &pool(1000 * SOL, 100 * SOL)).is_none());
}

#[test]
fn known_programs_are_identified() {
    let d = detector();
    assert_eq!(d.identify_dex(&raydium_swap(SOL)), Some(DexType::Raydium));
    let orca = transaction(parse_pubkey(ORCA).unwrap(), swap_payload(SOL, 1), 4);
    assert_eq!(d.identify_dex(&orca), Some(DexType::Orca));
    assert_eq!(d.dex_for_program_id(&RAYDIUM.to_string()), Some(DexType::Raydium));
    assert_eq!(d.dex_for_program_id(&"nothing".to_string()), None);
}

#[test]
fn disabled_exchange_is_not_identified() {
    let mut config = Config::default();
    config.dex.raydium.enabled = false;
    let d = OpportunityDetector::new(config);
    assert_eq!(d.identify_dex(&raydium_swap(50 * SOL)), None);
    assert!(d.analyze(&raydium_swap(50 * SOL), &pool(1000 * SOL, 100 * SOL)).is_none());
}

#[test]
fn unsupported_exchange_gives_no_opportunity() {
    let orca = transaction(parse_pubkey(ORCA).unwrap(), swap_payload(50 * SOL, 1), 4);
    assert_eq!(parse_swap_instruction(&orca, DexType::Orca), Err(ParseError::NotSupported));
    assert_eq!(parse_swap_instruction(&orca, DexType::Jupiter), Err(ParseError::NotSupported));
    assert!(detector().analyze(&orca, &pool(1000 * SOL, 100 * SOL)).is_none());
}

#[test]
fn short_payload_is_a_decode_error() {
    let program = parse_pubkey(RAYDIUM).unwrap();
    let tx = transaction(program, vec![9, 1, 2, 3], 4);
    assert_eq!(parse_swap_instruction(&tx, DexType::Raydium), Err(ParseError::TooShort));
    assert!(detector().analyze(&tx, &pool(1000 * SOL, 100 * SOL)).is_none());
}

#[test]
fn missing_accounts_are_a_decode_error() {
    let program = parse_pubkey(RAYDIUM).unwrap();
    let tx = transaction(program, swap_payload(50 * SOL, 1), 3);
    assert_eq!(parse_swap_instruction(&tx, DexType::Raydium), Err(ParseError::MissingAccounts));
}

#[test]
fn raydium_payload_is_decoded() {
    let tx = raydium_swap(123_456_789_012);
    let swap = parse_swap_instruction(&tx, DexType::Raydium).unwrap();
    assert_eq!(swap.amount_in, 123_456_789_012);
    assert_eq!(swap.minimum_amount_out, 1);
    assert_eq!(swap.pool_address, address(2));
    assert_eq!(swap.token_in, address(3));
    assert_eq!(swap.token_out, address(4));
    assert!(swap.is_buy);
}

#[test]
fn little_endian_fields_are_read_and_written() {
    let data = vec![0xff, 0x08, 0x07, 0x06, 0x05, 0x04, 0x03, 0x02, 0x01];
    assert_eq!(read_u64_le(&data, 1), 0x0102_0304_0506_0708);
    let written = swap_instruction_data(0x0102_0304_0506_0708);
    assert_eq!(
        written,
        vec![9, 0x08, 0x07, 0x06, 0x05, 0x04, 0x03, 0x02, 0x01, 0, 0, 0, 0, 0, 0, 0, 0]
    );
    assert_eq!(read_u64_le(&written, 1), 0x0102_0304_0506_0708);
    assert_eq!(read_u64_le(&swap_instruction_data(u64::MAX), 1), u64::MAX);
}

#[test]
fn profit_below_the_minimum_is_rejected() {
    let mut config = Config::default();
    config.strategy.min_profit_lamports = 200_000_000;
    let d = OpportunityDetector::new(config);
    assert!(d.analyze(&raydium_swap(50 * SOL), &pool(1000 * SOL, 100 * SOL)).is_none());
}

#[test]
fn profit_percentage_gate() {
    // This bracket earns 10.034 % of its one-SOL front-run.
    let mut config = Config::default();
    config.strategy.min_profit_bps = 1_100;
    let refused = OpportunityDetector::new(config.clone());
    assert!(refused.analyze(&raydium_swap(50 * SOL), &pool(1000 * SOL, 100 * SOL)).is_none());
    config.strategy.min_profit_bps = 1_000;
    let accepted = OpportunityDetector::new(config);
    assert!(accepted.analyze(&raydium_swap(50 * SOL), &pool(1000 * SOL, 100 * SOL)).is_some());
}

#[test]
fn front_run_respects_the_position_limit() {
    let mut config = Config::default();
    config.wallet.max_position_lamports = SOL / 2;
    let d = OpportunityDetector::new(config);
    let opp = d.analyze(&raydium_swap(50 * SOL), &pool(1000 * SOL, 100 * SOL)).unwrap();
    assert_eq!(opp.front_run_amount, SOL / 2);
    assert_eq!(d.calculate_optimal_amounts(0, u64::MAX), (SOL / 2, SOL / 2));
    assert_eq!(opp.estimated_profit, 49_209_996);
}

#[test]
fn empty_pool_gives_no_opportunity() {
    let d = detector();
    assert!(d.analyze(&raydium_swap(50 * SOL), &pool(0, 100 * SOL)).is_none());
    assert!(d.analyze(&raydium_swap(50 * SOL), &pool(1000 * SOL, 0)).is_none());
}

#[test]
fn sell_side_reads_the_other_reserve() {
    let d = detector();
    let p = pool(1000 * SOL, 100 * SOL);
    assert_eq!(d.calculate_price_impact(&p, 100 * SOL, false), 750_000);
    assert_eq!(d.calculate_price_impact(&p, 100 * SOL, true), 173_553);
}

#[test]
fn trades_that_overflow_the_input_reserve_give_no_opportunity() {
    let d = detector();
    assert!(d.analyze(&raydium_swap(50 * SOL), &pool(u64::MAX - SOL, 100 * SOL)).is_none());
}
