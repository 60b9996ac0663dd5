//! The values that flow through detection and execution.
use vstd::prelude::*;

verus! {

/// A 32-byte account, mint or program address.
#[derive(Clone, Copy, Debug, PartialEq, Eq, Hash)]
pub struct Address {
    pub bytes: [u8; 32],
}

/// A 64-byte transaction signature.
#[derive(Clone, Copy, Debug, PartialEq, Eq, Hash)]
pub struct Signature {
    pub bytes: [u8; 64],
}

/// A transaction seen on the network: immutable once observed.
#[derive(Clone, Debug)]
pub struct Transaction {
    pub signature: Signature,
    /// Accounts the instruction names, in order.
    pub accounts: Vec<Address>,
    /// The program that owns the instruction.
    pub program_id: Address,
    /// Raw instruction payload.
    pub data: Vec<u8>,
    pub slot: u64,
}

/// The exchanges whose swaps the bot understands.
#[derive(Clone, Copy, Debug, PartialEq, Eq, Structural)]
pub enum DexType {
    Raydium,
    Orca,
    Jupiter,
}

/// Reserves of a constant-product pool at the moment they were read.
#[derive(Clone, Copy, Debug, PartialEq, Eq)]
pub struct PoolInfo {
    pub address: Address,
    pub token_a: Address,
    pub token_b: Address,
    /// Reserve of token A (the SOL side), in its smallest unit.
    pub reserve_a: u64,
    /// Reserve of token B, in its smallest unit.
    pub reserve_b: u64,
    /// Liquidity estimate, in whole US dollars.
    pub liquidity_usd: u64,
}

/// What a swap instruction asks for.
#[derive(Clone, Copy, Debug, PartialEq, Eq)]
pub struct SwapInfo {
    pub pool_address: Address,
    pub token_in: Address,
    pub token_out: Address,
    /// Input amount, in lamports.
    pub amount_in: u64,
    /// Least output the swapper accepts.
    pub minimum_amount_out: u64,
    /// Whether the swap pays token A (SOL) for token B.
    pub is_buy: bool,
}

/// A target worth bracketing, with the sizes chosen for it.
#[derive(Clone, Debug)]
pub struct SandwichOpportunity {
    pub target_transaction: Transaction,
    pub dex: DexType,
    pub token_in: Address,
    pub token_out: Address,
    /// The target's input, in lamports.
    pub amount: u64,
    /// Estimated profit of the bracket, in lamports.
    pub estimated_profit: u128,
    /// The target's price impact, in parts per million.
    pub price_impact: u64,
    /// Lamports spent by the front-run.
    pub front_run_amount: u64,
    /// Amount the back-run sells.
    pub back_run_amount: u64,
}

/// The outcome of a bracket whose legs both went through.
#[derive(Clone, Copy, Debug)]
pub struct ExecutionResult {
    pub front_run_signature: Signature,
    pub target_signature: Signature,
    pub back_run_signature: Signature,
    /// Realized profit in lamports; negative for a loss.
    pub actual_profit: i128,
    /// Fees paid by the two legs, in lamports.
    pub gas_cost: u64,
}

} // verus!
