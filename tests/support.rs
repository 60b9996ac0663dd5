use sandwich_bot::config::{Config, ConfigError};
use sandwich_bot::mempool::MempoolMonitor;
use sandwich_bot::metrics::Metrics;
use sandwich_bot::types::{Address, DexType, Signature, Transaction};
use sandwich_bot::utils::{format_sol, parse_pubkey};

#[test]
fn default_config_is_valid() {
    let config = Config::default();
    assert_eq!(config.validate(), Ok(()));
    assert_eq!(config.strategy.min_profit_lamports, 10_000_000);
    assert_eq!(config.strategy.min_profit_bps, 50);
    assert_eq!(config.wallet.max_position_lamports, 1_000_000_000);
}

#[test]
fn config_errors() {
    let mut c = Config::default();
    c.rpc.http_url = String::new();
    assert_eq!(c.validate(), Err(ConfigError::EmptyRpcUrl));

    let mut c = Config::default();
    c.wallet.max_position_lamports = 0;
    assert_eq!(c.validate(), Err(ConfigError::NonPositivePositionSize));

    let mut c = Config::default();
    c.strategy.min_profit_lamports = 0;
    assert_eq!(c.validate(), Err(ConfigError::NonPositiveMinProfit));

    let mut c = Config::default();
    c.dex.orca.program_id = "0000".to_string();
    assert_eq!(c.validate(), Err(ConfigError::InvalidProgramId(DexType::Orca)));

    let mut c = Config::default();
    c.dex.jupiter.program_id = "1".repeat(45);
    assert_eq!(c.validate(), Err(ConfigError::InvalidProgramId(DexType::Jupiter)));
}

#[test]
fn pubkeys_parse_from_base58() {
    assert_eq!(
        parse_pubkey("11111111111111111111111111111111"),
        Ok(Address { bytes: [0; 32] })
    );
    let raydium = parse_pubkey("675kPX9MHTjS2zt1qfr1NYHuzeLXfQM9H24wFSUt1Mp8").unwrap();
    assert_ne!(raydium.bytes, [0; 32]);
    assert_eq!(parse_pubkey("not-a-key"), Err("Invalid pubkey".to_string()));
}

#[test]
fn sol_amounts_are_formatted() {
    assert_eq!(format_sol(0), "0.0000 SOL");
    assert_eq!(format_sol(1_234_567_890), "1.2346 SOL");
    assert_eq!(format_sol(1_000_000_000), "1.0000 SOL");
    assert_eq!(format_sol(49_999), "0.0000 SOL");
    assert_eq!(format_sol(12_345_000_000_000), "12345.0000 SOL");
    assert_eq!(format_sol(u64::MAX), "18446744073.7096 SOL");
    assert_eq!(format_sol(9_007_199_254_740_993), "9007199.2547 SOL");
    assert_eq!(format_sol(1_152_921_504_606_859_321), "1152921504.6069 SOL");
}

#[test]
fn sol_ties_follow_the_f64_quotient() {
    // 0.00005 and 0.00025 are held as f64 just above the tie; 0.00015 and
    // 0.00045 just below it.
    assert_eq!(format_sol(50_000), "0.0001 SOL");
    assert_eq!(format_sol(250_000), "0.0003 SOL");
    assert_eq!(format_sol(150_000), "0.0001 SOL");
    assert_eq!(format_sol(450_000), "0.0004 SOL");
    // 0.03125 and 0.09375 are exact in binary: ties go to the even digit.
    assert_eq!(format_sol(31_250_000), "0.0312 SOL");
    assert_eq!(format_sol(93_750_000), "0.0938 SOL");
    for lamports in [31_250_000u64, 93_750_000, 156_250_000, 1_031_250_000, u64::MAX - 1] {
        assert_eq!(format_sol(lamports), format!("{:.4} SOL", lamports as f64 / 1e9));
    }
    for lamports in (0..3_000_000u64).step_by(12_500) {
        assert_eq!(format_sol(lamports), format!("{:.4} SOL", lamports as f64 / 1e9));
    }
}

#[test]
fn metrics_count_outcomes() {
    let mut m = Metrics::new();
    assert_eq!(m.success_rate(), 0);
    assert_eq!(m.average_profit_per_trade(), 0);
    m.record_opportunity();
    m.record_opportunity();
    m.record_trade_executed(30_000_000);
    m.record_trade_executed(-5_000_000);
    m.record_trade_failed();
    assert_eq!(m.opportunities_found, 2);
    assert_eq!(m.trades_executed, 2);
    assert_eq!(m.trades_failed, 1);
    assert_eq!(m.total_profit, 30_000_000);
    assert_eq!(m.total_loss, 5_000_000);
    assert_eq!(m.net_profit(), 25_000_000);
    assert_eq!(m.success_rate(), 6666);
    assert_eq!(m.average_profit_per_trade(), 15_000_000);
}

#[test]
fn metrics_saturate() {
    let mut m = Metrics::new();
    m.record_trade_executed(i128::MAX);
    m.record_trade_executed(1);
    m.record_trade_executed(i128::MIN);
    assert_eq!(m.total_profit, u64::MAX);
    assert_eq!(m.total_loss, u64::MAX);
    assert_eq!(m.net_profit(), 0);
}

#[test]
fn mempool_queues_enabled_exchanges_only() {
    let monitor = MempoolMonitor::new(Config::default());
    let mut tx = Transaction {
        signature: Signature { bytes: [0; 64] },
        accounts: vec![],
        program_id: parse_pubkey("JUP6LkbZbjS1jKKwapdHNy74zcZ3tLUZoi5QNyVTaV4").unwrap(),
        data: vec![],
        slot: 0,
    };
    assert!(monitor.accepts(&tx));
    tx.program_id = Address { bytes: [9; 32] };
    assert!(!monitor.accepts(&tx));
    let mut config = Config::default();
    config.dex.jupiter.enabled = false;
    let monitor = MempoolMonitor::new(config);
    tx.program_id = parse_pubkey("JUP6LkbZbjS1jKKwapdHNy74zcZ3tLUZoi5QNyVTaV4").unwrap();
    assert!(!monitor.accepts(&tx));
}
