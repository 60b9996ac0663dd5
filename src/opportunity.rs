//! Deciding, for one observed transaction, whether bracketing it pays.
use vstd::prelude::*;
use vstd::arithmetic::div_mod::{lemma_fundamental_div_mod, lemma_mod_pos_bound};
use vstd::arithmetic::mul::lemma_mul_upper_bound;
use crate::address::{address_to_base58, base58_of_address};
use crate::amm::{
    bracket_amounts,
    impact_den,
    impact_num,
    estimate_profit,
    estimated_profit_spec,
    front_run_amount_spec,
    price_impact_ppm,
    price_impact_ppm_spec,
    MIN_PRICE_IMPACT_PPM,
    PPM,
};
use crate::config::{Config, DexConfig};
use crate::swap::{parse_swap_instruction, parse_swap_spec};
use crate::types::{DexType, PoolInfo, SandwichOpportunity, SwapInfo, Transaction};

verus! {

/// Basis points in a whole.
pub const BPS: u64 = 10_000;

/// The enabled exchange whose program address has the base58 text `program`.
pub open spec fn dex_for_program(dex: DexConfig, program: Seq<char>) -> Option<DexType> {
    if dex.raydium.enabled && program == dex.raydium.program_id@ {
        Some(DexType::Raydium)
    } else if dex.orca.enabled && program == dex.orca.program_id@ {
        Some(DexType::Orca)
    } else if dex.jupiter.enabled && program == dex.jupiter.program_id@ {
        Some(DexType::Jupiter)
    } else {
        None
    }
}

/// The reserve a swap pays into and the one it takes from.
pub open spec fn reserves_for(pool: PoolInfo, is_buy: bool) -> (u64, u64) {
    if is_buy {
        (pool.reserve_a, pool.reserve_b)
    } else {
        (pool.reserve_b, pool.reserve_a)
    }
}

/// The numbers of a bracket: price impact (ppm), front-run, back-run, estimated profit.
pub type BracketPlan = (int, int, int, int);

/// The bracket around `swap` on `pool`, or none where a gate refuses it.
///
/// A pool with an empty side has no price and gives none. The pool's input
/// reserve is a `u64` on chain, so trades that would overflow it cannot run
/// and give none either. The target must
/// move the price by at least one percent; the estimated profit must reach
/// the configured minimum, in lamports and relative to the front-run.
pub open spec fn evaluate_spec(config: Config, swap: SwapInfo, pool: PoolInfo) -> Option<BracketPlan> {
    let (reserve_in, reserve_out) = reserves_for(pool, swap.is_buy);
    let target = swap.amount_in as int;
    if reserve_in == 0 || reserve_out == 0 {
        None
    } else if reserve_in + target > u64::MAX {
        None
    } else {
        let impact = price_impact_ppm_spec(reserve_in as int, target);
        if impact < MIN_PRICE_IMPACT_PPM {
            None
        } else {
            let front = front_run_amount_spec(
                reserve_in as int,
                target,
                config.wallet.max_position_lamports as int,
            );
            if reserve_in + front + target > u64::MAX {
                None
            } else {
                let profit = estimated_profit_spec(reserve_in as int, front, target);
                if profit < config.strategy.min_profit_lamports {
                    None
                } else if profit * BPS < config.strategy.min_profit_bps * front {
                    None
                } else {
                    Some((impact, front, front, profit))
                }
            }
        }
    }
}

/// The whole analysis of `tx`, whose program address reads `program`, on `pool`.
pub open spec fn analysis_spec(config: Config, program: Seq<char>, tx: Transaction, pool: PoolInfo) -> Option<
    (DexType, SwapInfo, BracketPlan),
> {
    match dex_for_program(config.dex, program) {
        None => None,
        Some(dex) => match parse_swap_spec(tx, dex) {
            Err(_) => None,
            Ok(swap) => match evaluate_spec(config, swap, pool) {
                None => None,
                Some(plan) => Some((dex, swap, plan)),
            },
        },
    }
}

/// `copy` holds the same transaction as `tx`.
pub open spec fn same_transaction(copy: Transaction, tx: Transaction) -> bool {
    &&& copy.signature == tx.signature
    &&& copy.accounts@ == tx.accounts@
    &&& copy.program_id == tx.program_id
    &&& copy.data@ == tx.data@
    &&& copy.slot == tx.slot
}

/// `opp` brackets `tx` on `dex` around `swap` with the numbers of `plan`.
pub open spec fn describes(
    opp: SandwichOpportunity,
    tx: Transaction,
    dex: DexType,
    swap: SwapInfo,
    plan: BracketPlan,
) -> bool {
    &&& same_transaction(opp.target_transaction, tx)
    &&& opp.dex == dex
    &&& opp.token_in == swap.token_in
    &&& opp.token_out == swap.token_out
    &&& opp.amount == swap.amount_in
    &&& opp.price_impact == plan.0
    &&& opp.front_run_amount == plan.1
    &&& opp.back_run_amount == plan.2
    &&& opp.estimated_profit == plan.3
}

fn copy_transaction(tx: &Transaction) -> (r: Transaction)
    ensures
        same_transaction(r, *tx),
{
    let accounts = tx.accounts.clone();
    let data = tx.data.clone();
    proof {
        assert(accounts@ =~= tx.accounts@);
        assert(data@ =~= tx.data@);
    }
    Transaction { signature: tx.signature, accounts, program_id: tx.program_id, data, slot: tx.slot }
}

pub struct OpportunityDetector {
    pub config: Config,
}

impl OpportunityDetector {
    pub fn new(config: Config) -> (r: Self)
        ensures
            r.config == config,
    {
        OpportunityDetector { config }
    }

    /// The enabled exchange whose program address has the base58 text `program_id`.
    pub fn dex_for_program_id(&self, program_id: &String) -> (r: Option<DexType>)
        ensures
            r == dex_for_program(self.config.dex, program_id@),
    {
        let dex = &self.config.dex;
        if dex.raydium.enabled && *program_id == dex.raydium.program_id {
            Some(DexType::Raydium)
        } else if dex.orca.enabled && *program_id == dex.orca.program_id {
            Some(DexType::Orca)
        } else if dex.jupiter.enabled && *program_id == dex.jupiter.program_id {
            Some(DexType::Jupiter)
        } else {
            None
        }
    }

    /// The exchange that owns `transaction`; an unknown program gives none.
    pub fn identify_dex(&self, transaction: &Transaction) -> (r: Option<DexType>)
        ensures
            r == dex_for_program(self.config.dex, base58_of_address(transaction.program_id.bytes@)),
    {
        let program_id = address_to_base58(&transaction.program_id);
        self.dex_for_program_id(&program_id)
    }

    /// The exchange and swap of `transaction`, if it is a swap the bot can read.
    pub fn target_swap(&self, transaction: &Transaction) -> (r: Option<(DexType, SwapInfo)>)
        ensures
            r == match dex_for_program(
                self.config.dex,
                base58_of_address(transaction.program_id.bytes@),
            ) {
                None => None,
                Some(dex) => match parse_swap_spec(*transaction, dex) {
                    Err(_) => None,
                    Ok(swap) => Some((dex, swap)),
                },
            },
    {
        match self.identify_dex(transaction) {
            None => None,
            Some(dex) => match parse_swap_instruction(transaction, dex) {
                Err(_) => None,
                Ok(swap) => Some((dex, swap)),
            },
        }
    }

    /// Price impact of a trade of `amount_in` on `pool`, in parts per million.
    pub fn calculate_price_impact(&self, pool: &PoolInfo, amount_in: u64, is_buy: bool) -> (r: u64)
        ensures
            r == price_impact_ppm_spec(reserves_for(*pool, is_buy).0 as int, amount_in as int),
            r <= PPM,
    {
        let reserve_in = if is_buy {
            pool.reserve_a
        } else {
            pool.reserve_b
        };
        price_impact_ppm(reserve_in, amount_in)
    }

    /// Front-run and back-run sizes for a target of `target_amount` lamports on
    /// a pool whose input side holds `reserve_in`.
    pub fn calculate_optimal_amounts(&self, reserve_in: u64, target_amount: u64) -> (r: (u64, u64))
        requires
            reserve_in + target_amount <= u64::MAX,
        ensures
            r.0 == front_run_amount_spec(
                reserve_in as int,
                target_amount as int,
                self.config.wallet.max_position_lamports as int,
            ),
            r.0 <= self.config.wallet.max_position_lamports,
            r.1 == r.0,
    {
        bracket_amounts(reserve_in, target_amount, self.config.wallet.max_position_lamports)
    }

    /// The bracket around `swap` on `pool`, if every gate passes.
    pub fn evaluate(&self, transaction: &Transaction, dex: DexType, swap: &SwapInfo, pool: &PoolInfo) -> (r:
        Option<SandwichOpportunity>)
        ensures
            match evaluate_spec(self.config, *swap, *pool) {
                None => r.is_none(),
                Some(plan) => r.is_some() && describes(r.unwrap(), *transaction, dex, *swap, plan),
            },
    {
        let (reserve_in, reserve_out) = if swap.is_buy {
            (pool.reserve_a, pool.reserve_b)
        } else {
            (pool.reserve_b, pool.reserve_a)
        };
        if reserve_in == 0 || reserve_out == 0 {
            return None;
        }
        if reserve_in as u128 + swap.amount_in as u128 > u64::MAX as u128 {
            return None;
        }
        let price_impact = price_impact_ppm(reserve_in, swap.amount_in);
        if price_impact < MIN_PRICE_IMPACT_PPM {
            return None;
        }
        let (front_run_amount, back_run_amount) = self.calculate_optimal_amounts(
            reserve_in,
            swap.amount_in,
        );
        if reserve_in as u128 + front_run_amount as u128 + swap.amount_in as u128 > u64::MAX as u128 {
            return None;
        }
        let estimated_profit = estimate_profit(reserve_in, front_run_amount, swap.amount_in);
        let strategy = &self.config.strategy;
        if estimated_profit < strategy.min_profit_lamports as u128 {
            return None;
        }
        proof {
            lemma_mul_upper_bound(
                strategy.min_profit_bps as int,
                u64::MAX as int,
                front_run_amount as int,
                u64::MAX as int,
            );
            assert((u64::MAX as int) * (u64::MAX as int) <= u128::MAX) by (nonlinear_arith);
            assert(estimated_profit <= u64::MAX);
            assert(strategy.min_profit_bps as int * front_run_amount as int <= u128::MAX);
        }
        let scaled_profit: u128 = estimated_profit * 10_000;
        let required: u128 = strategy.min_profit_bps as u128 * front_run_amount as u128;
        if scaled_profit < required {
            return None;
        }
        Some(
            SandwichOpportunity {
                target_transaction: copy_transaction(transaction),
                dex,
                token_in: swap.token_in,
                token_out: swap.token_out,
                amount: swap.amount_in,
                estimated_profit,
                price_impact,
                front_run_amount,
                back_run_amount,
            },
        )
    }

    /// The whole analysis of `transaction` on `pool`, the pool its swap names.
    ///
    /// An unknown program, an unreadable or unsupported swap, or a failed gate
    /// all give no opportunity: none of them is an error.
    pub fn analyze(&self, transaction: &Transaction, pool: &PoolInfo) -> (r: Option<SandwichOpportunity>)
        ensures
            match analysis_spec(
                self.config,
                base58_of_address(transaction.program_id.bytes@),
                *transaction,
                *pool,
            ) {
                None => r.is_none(),
                Some((dex, swap, plan)) => r.is_some() && describes(
                    r.unwrap(),
                    *transaction,
                    dex,
                    swap,
                    plan,
                ),
            },
    {
        match self.target_swap(transaction) {
            None => None,
            Some((dex, swap)) => self.evaluate(transaction, dex, &swap, pool),
        }
    }
}

/// An emitted opportunity always clears the gates: the target moves the
/// price by at least one percent (exactly, before any rounding), the
/// estimated profit reaches the configured minimum, and the front-run stays
/// within the position limit and is sold back whole.
pub proof fn lemma_emitted_clears_gates(
    config: Config,
    program: Seq<char>,
    tx: Transaction,
    pool: PoolInfo,
)
    requires
        analysis_spec(config, program, tx, pool).is_some(),
    ensures
        ({
            let (_, swap, plan) = analysis_spec(config, program, tx, pool).unwrap();
            let reserve_in = reserves_for(pool, swap.is_buy).0 as int;
            &&& 100 * impact_num(reserve_in, swap.amount_in as int) >= impact_den(
                reserve_in,
                swap.amount_in as int,
            )
            &&& plan.0 >= MIN_PRICE_IMPACT_PPM
            &&& plan.3 >= config.strategy.min_profit_lamports
            &&& plan.1 <= config.wallet.max_position_lamports
            &&& plan.2 == plan.1
        }),
{
    let (_, swap, plan) = analysis_spec(config, program, tx, pool).unwrap();
    let ri = reserves_for(pool, swap.is_buy).0 as int;
    let a = swap.amount_in as int;
    let n = impact_num(ri, a);
    let d = impact_den(ri, a);
    let ppm = PPM as int;
    assert(ri > 0);
    assert(d > 0) by (nonlinear_arith)
        requires
            d == (ri + a) * (ri + a),
            ri > 0,
            a >= 0,
    ;
    assert(plan.0 == (ppm * n) / d);
    lemma_fundamental_div_mod(ppm * n, d);
    lemma_mod_pos_bound(ppm * n, d);
    assert(100 * n >= d) by (nonlinear_arith)
        requires
            ppm * n == d * ((ppm * n) / d) + (ppm * n) % d,
            0 <= (ppm * n) % d,
            (ppm * n) / d >= 10_000,
            ppm == 1_000_000,
            d > 0,
    ;
}

} // verus!
