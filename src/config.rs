//! Settings that the detector and the executor read.
//!
//! SOL amounts are held in lamports and percentages in basis points, so that
//! every threshold compares exactly.
use vstd::prelude::*;
use vstd::string::StringExecFns;
use crate::address::{address_from_base58, address_of_base58};
use crate::types::DexType;

verus! {

/// Lamports in one SOL.
pub const LAMPORTS_PER_SOL: u64 = 1_000_000_000;

#[derive(Clone, Debug)]
pub struct RpcConfig {
    pub http_url: String,
    pub ws_url: String,
    pub commitment: String,
    pub timeout_seconds: u64,
    pub max_retries: u32,
}

#[derive(Clone, Debug)]
pub struct WalletConfig {
    /// Path of the wallet's keypair file.
    pub keypair_path: String,
    /// Most lamports spent on one front-run.
    pub max_position_lamports: u64,
}

#[derive(Clone, Debug)]
pub struct StrategyConfig {
    /// Smallest target volume considered, in US dollars.
    pub min_target_volume_usd: u64,
    /// Largest target volume considered, in US dollars.
    pub max_target_volume_usd: u64,
    /// Least estimated profit worth a bracket, in lamports.
    pub min_profit_lamports: u64,
    /// Least estimated profit relative to the front-run, in basis points.
    pub min_profit_bps: u64,
    /// Slippage tolerance, in basis points.
    pub max_slippage_bps: u64,
    /// Compute-unit price of the priority fee, in micro-lamports.
    pub priority_fee: u64,
    /// Submit through an atomic bundle rather than a direct broadcast.
    pub use_jito: bool,
}

#[derive(Clone, Debug)]
pub struct DexSettings {
    pub enabled: bool,
    /// Base58 text of the exchange's program address.
    pub program_id: String,
    /// Least pool liquidity considered, in US dollars.
    pub min_liquidity_usd: u64,
}

#[derive(Clone, Debug)]
pub struct DexConfig {
    pub raydium: DexSettings,
    pub orca: DexSettings,
    pub jupiter: DexSettings,
}

#[derive(Clone, Debug)]
pub struct RiskConfig {
    /// Positions open at once; the serial design holds one.
    pub max_concurrent_trades: u32,
    pub stop_loss_bps: u64,
    pub max_daily_loss_lamports: u64,
    /// Pause after this many losses in a row.
    pub circuit_breaker_losses: u32,
}

#[derive(Clone, Debug)]
pub struct Config {
    pub rpc: RpcConfig,
    pub wallet: WalletConfig,
    pub strategy: StrategyConfig,
    pub dex: DexConfig,
    pub risk: RiskConfig,
}

/// Why a configuration is refused.
#[derive(Clone, Copy, Debug, PartialEq, Eq, Structural)]
pub enum ConfigError {
    EmptyRpcUrl,
    NonPositivePositionSize,
    NonPositiveMinProfit,
    /// The program address of this exchange is not base58 text of 32 bytes.
    InvalidProgramId(DexType),
}

/// The program address is base58 text of 32 bytes.
pub open spec fn program_id_valid(settings: DexSettings) -> bool {
    address_of_base58(settings.program_id@).is_some()
}

/// The first rule that `config` breaks, checked in order, or none.
pub open spec fn validate_spec(config: Config) -> Result<(), ConfigError> {
    if config.rpc.http_url@.len() == 0 {
        Err(ConfigError::EmptyRpcUrl)
    } else if config.wallet.max_position_lamports == 0 {
        Err(ConfigError::NonPositivePositionSize)
    } else if config.strategy.min_profit_lamports == 0 {
        Err(ConfigError::NonPositiveMinProfit)
    } else if !program_id_valid(config.dex.raydium) {
        Err(ConfigError::InvalidProgramId(DexType::Raydium))
    } else if !program_id_valid(config.dex.orca) {
        Err(ConfigError::InvalidProgramId(DexType::Orca))
    } else if !program_id_valid(config.dex.jupiter) {
        Err(ConfigError::InvalidProgramId(DexType::Jupiter))
    } else {
        Ok(())
    }
}

impl Config {
    /// Checks the settings that every later step relies on.
    pub fn validate(&self) -> (r: Result<(), ConfigError>)
        ensures
            r == validate_spec(*self),
    {
        if self.rpc.http_url.as_str().is_empty() {
            return Err(ConfigError::EmptyRpcUrl);
        }
        if self.wallet.max_position_lamports == 0 {
            return Err(ConfigError::NonPositivePositionSize);
        }
        if self.strategy.min_profit_lamports == 0 {
            return Err(ConfigError::NonPositiveMinProfit);
        }
        if address_from_base58(self.dex.raydium.program_id.as_str()).is_none() {
            return Err(ConfigError::InvalidProgramId(DexType::Raydium));
        }
        if address_from_base58(self.dex.orca.program_id.as_str()).is_none() {
            return Err(ConfigError::InvalidProgramId(DexType::Orca));
        }
        if address_from_base58(self.dex.jupiter.program_id.as_str()).is_none() {
            return Err(ConfigError::InvalidProgramId(DexType::Jupiter));
        }
        Ok(())
    }
}

fn default_dex(program_id: &str) -> (r: DexSettings)
    ensures
        r.enabled,
        r.program_id@ == program_id@,
        r.min_liquidity_usd == 50_000,
{
    DexSettings { enabled: true, program_id: String::from_str(program_id), min_liquidity_usd: 50_000 }
}

impl Default for Config {
    /// Mainnet endpoints, the three exchanges enabled, one SOL per position, and
    /// a bracket wanted only above 0.01 SOL and 0.5 % of its outlay.
    fn default() -> (r: Self)
        ensures
            r.wallet.max_position_lamports == LAMPORTS_PER_SOL,
            r.strategy.min_profit_lamports == 10_000_000,
            r.strategy.min_profit_bps == 50,
            r.strategy.max_slippage_bps == 100,
            r.strategy.priority_fee == 10_000,
            r.strategy.use_jito,
            r.dex.raydium.enabled && r.dex.orca.enabled && r.dex.jupiter.enabled,
            r.dex.raydium.program_id@ == "675kPX9MHTjS2zt1qfr1NYHuzeLXfQM9H24wFSUt1Mp8"@,
            r.dex.orca.program_id@ == "whirLbMiicVdio4qvUfM5KAg6Ct8VwpYzGff3uctyCc"@,
            r.dex.jupiter.program_id@ == "JUP6LkbZbjS1jKKwapdHNy74zcZ3tLUZoi5QNyVTaV4"@,
            r.rpc.http_url@ == "https://api.mainnet-beta.solana.com"@,
            r.rpc.ws_url@ == "wss://api.mainnet-beta.solana.com"@,
            r.rpc.commitment@ == "confirmed"@,
            r.rpc.timeout_seconds == 30,
            r.rpc.max_retries == 3,
            r.wallet.keypair_path@ == "~/.config/solana/id.json"@,
            r.strategy.min_target_volume_usd == 10_000,
            r.strategy.max_target_volume_usd == 1_000_000,
            r.dex.raydium.min_liquidity_usd == 50_000,
            r.dex.orca.min_liquidity_usd == 50_000,
            r.dex.jupiter.min_liquidity_usd == 50_000,
            r.risk.max_concurrent_trades == 3,
            r.risk.stop_loss_bps == 500,
            r.risk.max_daily_loss_lamports == 5 * LAMPORTS_PER_SOL,
            r.risk.circuit_breaker_losses == 5,
    {
        Config {
            rpc: RpcConfig {
                http_url: String::from_str("https://api.mainnet-beta.solana.com"),
                ws_url: String::from_str("wss://api.mainnet-beta.solana.com"),
                commitment: String::from_str("confirmed"),
                timeout_seconds: 30,
                max_retries: 3,
            },
            wallet: WalletConfig {
                keypair_path: String::from_str("~/.config/solana/id.json"),
                max_position_lamports: LAMPORTS_PER_SOL,
            },
            strategy: StrategyConfig {
                min_target_volume_usd: 10_000,
                max_target_volume_usd: 1_000_000,
                min_profit_lamports: 10_000_000,
                min_profit_bps: 50,
                max_slippage_bps: 100,
                priority_fee: 10_000,
                use_jito: true,
            },
            dex: DexConfig {
                raydium: default_dex("675kPX9MHTjS2zt1qfr1NYHuzeLXfQM9H24wFSUt1Mp8"),
                orca: default_dex("whirLbMiicVdio4qvUfM5KAg6Ct8VwpYzGff3uctyCc"),
                jupiter: default_dex("JUP6LkbZbjS1jKKwapdHNy74zcZ3tLUZoi5QNyVTaV4"),
            },
            risk: RiskConfig {
                max_concurrent_trades: 3,
                stop_loss_bps: 500,
                max_daily_loss_lamports: 5 * LAMPORTS_PER_SOL,
                circuit_breaker_losses: 5,
            },
        }
    }
}

} // verus!
