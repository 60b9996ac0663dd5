//! Executing a bracket: front-run, wait for the target, back-run, settle.
//!
//! The decisions are a state machine. Its driver submits what an action asks
//! for, polls, sleeps, and hands the outcome back as an event; nothing here
//! touches the network.
use vstd::prelude::*;
use crate::address::{address_from_base58, address_of_base58, base58_of_address};
use crate::config::Config;
use crate::swap::{le_bytes, swap_data_spec, swap_instruction_data};
use crate::types::{Address, DexType, ExecutionResult, SandwichOpportunity, Signature};

verus! {

/// Polls for the target's confirmation, one second apart, before closing anyway.
pub const MAX_CONFIRMATION_ATTEMPTS: u64 = 60;

/// An instruction of the bot's own: the program it calls, the accounts it
/// names in order, and its payload.
#[derive(Clone, Debug)]
pub struct ProgramInstruction {
    pub program_id: Address,
    /// For a swap: the mint it pays from, then the mint it buys.
    pub accounts: Vec<Address>,
    pub data: Vec<u8>,
}

/// Why no instruction could be built.
#[derive(Clone, Copy, Debug, PartialEq, Eq, Structural)]
pub enum BuildError {
    /// The exchange's instruction layout is not implemented.
    NotSupported,
    /// The configured program address is not base58 text of 32 bytes.
    InvalidProgramId,
}

/// Why a bracket failed.
#[derive(Clone, Copy, Debug, PartialEq, Eq, Structural)]
pub enum ExecutionError {
    FrontRunFailed,
    BackRunFailed,
    SettlementFailed,
    /// An event that the current state does not expect.
    OutOfOrder,
}

/// Where a bracket stands.
#[derive(Clone, Copy, Debug)]
pub enum ExecutionState {
    Idle { target: Signature },
    /// The front-run landed; the target has been polled for `attempts` times.
    FrontRunSent { target: Signature, front_run: Signature, attempts: u64 },
    /// The target was seen, or the wait for it ran out (`timed_out`).
    TargetConfirmed { target: Signature, front_run: Signature, timed_out: bool },
    BackRunSent { target: Signature, front_run: Signature, back_run: Signature },
    Completed(ExecutionResult),
    Failed(ExecutionError),
}

/// What the driver observed.
#[derive(Clone, Copy, Debug)]
pub enum ExecutionEvent {
    Begin,
    /// The leg just asked for was submitted and confirmed under this signature.
    Submitted(Signature),
    /// The leg just asked for could not be built, submitted or confirmed.
    SubmissionFailed,
    /// Whether the target was found confirmed.
    TargetPolled(bool),
    /// The two legs' effects: lamports spent, lamports received, fees paid.
    Settled { sol_spent: u64, sol_received: u64, fees: u64 },
    SettlementFailed,
}

/// What the driver is to do next.
#[derive(Clone, Copy, Debug, PartialEq, Eq, Structural)]
pub enum ExecutionAction {
    SubmitFrontRun,
    /// Poll the target's signature, after a one-second pause if `wait_first`.
    PollTarget { wait_first: bool },
    SubmitBackRun,
    /// Read both legs' effects and report them as `Settled`.
    Settle,
    /// The state is terminal.
    Finish,
}

pub open spec fn is_terminal(state: ExecutionState) -> bool {
    state is Completed || state is Failed
}

/// The transition of the bracket protocol.
pub open spec fn step_spec(state: ExecutionState, event: ExecutionEvent) -> (ExecutionState, ExecutionAction) {
    match state {
        ExecutionState::Idle { target } => match event {
            ExecutionEvent::Begin => (state, ExecutionAction::SubmitFrontRun),
            ExecutionEvent::Submitted(front_run) => (
                ExecutionState::FrontRunSent { target, front_run, attempts: 0 },
                ExecutionAction::PollTarget { wait_first: false },
            ),
            ExecutionEvent::SubmissionFailed => (
                ExecutionState::Failed(ExecutionError::FrontRunFailed),
                ExecutionAction::Finish,
            ),
            _ => (ExecutionState::Failed(ExecutionError::OutOfOrder), ExecutionAction::Finish),
        },
        ExecutionState::FrontRunSent { target, front_run, attempts } => match event {
            ExecutionEvent::TargetPolled(seen) => {
                if seen {
                    (
                        ExecutionState::TargetConfirmed { target, front_run, timed_out: false },
                        ExecutionAction::SubmitBackRun,
                    )
                } else if attempts + 1 >= MAX_CONFIRMATION_ATTEMPTS {
                    (
                        ExecutionState::TargetConfirmed { target, front_run, timed_out: true },
                        ExecutionAction::SubmitBackRun,
                    )
                } else {
                    (
                        ExecutionState::FrontRunSent {
                            target,
                            front_run,
                            attempts: (attempts + 1) as u64,
                        },
                        ExecutionAction::PollTarget { wait_first: true },
                    )
                }
            },
            _ => (ExecutionState::Failed(ExecutionError::OutOfOrder), ExecutionAction::Finish),
        },
        ExecutionState::TargetConfirmed { target, front_run, .. } => match event {
            ExecutionEvent::Submitted(back_run) => (
                ExecutionState::BackRunSent { target, front_run, back_run },
                ExecutionAction::Settle,
            ),
            ExecutionEvent::SubmissionFailed => (
                ExecutionState::Failed(ExecutionError::BackRunFailed),
                ExecutionAction::Finish,
            ),
            _ => (ExecutionState::Failed(ExecutionError::OutOfOrder), ExecutionAction::Finish),
        },
        ExecutionState::BackRunSent { target, front_run, back_run } => match event {
            ExecutionEvent::Settled { sol_spent, sol_received, fees } => (
                ExecutionState::Completed(
                    ExecutionResult {
                        front_run_signature: front_run,
                        target_signature: target,
                        back_run_signature: back_run,
                        actual_profit: (sol_received - sol_spent - fees) as i128,
                        gas_cost: fees,
                    },
                ),
                ExecutionAction::Finish,
            ),
            ExecutionEvent::SettlementFailed => (
                ExecutionState::Failed(ExecutionError::SettlementFailed),
                ExecutionAction::Finish,
            ),
            _ => (ExecutionState::Failed(ExecutionError::OutOfOrder), ExecutionAction::Finish),
        },
        _ => (state, ExecutionAction::Finish),
    }
}

/// Advances the bracket protocol by one event.
pub fn step(state: ExecutionState, event: ExecutionEvent) -> (r: (ExecutionState, ExecutionAction))
    ensures
        r == step_spec(state, event),
{
    match state {
        ExecutionState::Idle { target } => match event {
            ExecutionEvent::Begin => (state, ExecutionAction::SubmitFrontRun),
            ExecutionEvent::Submitted(front_run) => (
                ExecutionState::FrontRunSent { target, front_run, attempts: 0 },
                ExecutionAction::PollTarget { wait_first: false },
            ),
            ExecutionEvent::SubmissionFailed => (
                ExecutionState::Failed(ExecutionError::FrontRunFailed),
                ExecutionAction::Finish,
            ),
            _ => (ExecutionState::Failed(ExecutionError::OutOfOrder), ExecutionAction::Finish),
        },
        ExecutionState::FrontRunSent { target, front_run, attempts } => match event {
            ExecutionEvent::TargetPolled(seen) => {
                if seen {
                    (
                        ExecutionState::TargetConfirmed { target, front_run, timed_out: false },
                        ExecutionAction::SubmitBackRun,
                    )
                } else if attempts >= MAX_CONFIRMATION_ATTEMPTS - 1 {
                    (
                        ExecutionState::TargetConfirmed { target, front_run, timed_out: true },
                        ExecutionAction::SubmitBackRun,
                    )
                } else {
                    (
                        ExecutionState::FrontRunSent { target, front_run, attempts: attempts + 1 },
                        ExecutionAction::PollTarget { wait_first: true },
                    )
                }
            },
            _ => (ExecutionState::Failed(ExecutionError::OutOfOrder), ExecutionAction::Finish),
        },
        ExecutionState::TargetConfirmed { target, front_run, .. } => match event {
            ExecutionEvent::Submitted(back_run) => (
                ExecutionState::BackRunSent { target, front_run, back_run },
                ExecutionAction::Settle,
            ),
            ExecutionEvent::SubmissionFailed => (
                ExecutionState::Failed(ExecutionError::BackRunFailed),
                ExecutionAction::Finish,
            ),
            _ => (ExecutionState::Failed(ExecutionError::OutOfOrder), ExecutionAction::Finish),
        },
        ExecutionState::BackRunSent { target, front_run, back_run } => match event {
            ExecutionEvent::Settled { sol_spent, sol_received, fees } => (
                ExecutionState::Completed(
                    ExecutionResult {
                        front_run_signature: front_run,
                        target_signature: target,
                        back_run_signature: back_run,
                        actual_profit: sol_received as i128 - sol_spent as i128 - fees as i128,
                        gas_cost: fees,
                    },
                ),
                ExecutionAction::Finish,
            ),
            ExecutionEvent::SettlementFailed => (
                ExecutionState::Failed(ExecutionError::SettlementFailed),
                ExecutionAction::Finish,
            ),
            _ => (ExecutionState::Failed(ExecutionError::OutOfOrder), ExecutionAction::Finish),
        },
        _ => (state, ExecutionAction::Finish),
    }
}

/// The fee payer's balance before and after one leg, and the fee it paid.
#[derive(Clone, Copy, Debug)]
pub struct BalanceChange {
    pub before: u64,
    pub after: u64,
    pub fee: u64,
}

/// `x` held between zero and `u64::MAX`.
pub open spec fn held(x: int) -> u64 {
    if x < 0 {
        0
    } else if x > u64::MAX {
        u64::MAX
    } else {
        x as u64
    }
}

fn held_exec(x: i128) -> (r: u64)
    ensures
        r == held(x as int),
{
    if x < 0 {
        0
    } else if x > u64::MAX as i128 {
        u64::MAX
    } else {
        x as u64
    }
}

/// The `Settled` event for the two legs: the front-run spent what the payer's
/// balance fell by beyond its fee, the back-run received what the balance rose
/// by plus its fee, and the fees are the two fees.
pub fn settlement(front: BalanceChange, back: BalanceChange) -> (r: ExecutionEvent)
    ensures
        r == (ExecutionEvent::Settled {
            sol_spent: held(front.before - front.after - front.fee),
            sol_received: held(back.after + back.fee - back.before),
            fees: held(front.fee + back.fee),
        }),
{
    ExecutionEvent::Settled {
        sol_spent: held_exec(front.before as i128 - front.after as i128 - front.fee as i128),
        sol_received: held_exec(back.after as i128 + back.fee as i128 - back.before as i128),
        fees: held_exec(front.fee as i128 + back.fee as i128),
    }
}

/// The back-run is asked for only once the target was seen or the wait for it
/// ran out, and only right after the front-run went through; a completed
/// bracket always comes from a submitted back-run and carries all three
/// signatures of the legs that led to it.
pub proof fn lemma_bracket_order(state: ExecutionState, event: ExecutionEvent)
    ensures
        ({
            let (next, action) = step_spec(state, event);
            &&& action == ExecutionAction::SubmitBackRun ==> match state {
                ExecutionState::FrontRunSent { attempts, .. } => event == ExecutionEvent::TargetPolled(
                    true,
                ) || (event == ExecutionEvent::TargetPolled(false) && attempts + 1
                    >= MAX_CONFIRMATION_ATTEMPTS),
                _ => false,
            }
            &&& (next is Completed && !(state is Completed)) ==> match state {
                ExecutionState::BackRunSent { target, front_run, back_run } => {
                    &&& event is Settled
                    &&& next->Completed_0.front_run_signature == front_run
                    &&& next->Completed_0.target_signature == target
                    &&& next->Completed_0.back_run_signature == back_run
                },
                _ => false,
            }
            &&& is_terminal(state) ==> next == state && action == ExecutionAction::Finish
        }),
{
}

/// The instruction that swaps `amount` of `token_in` for `token_out` on `dex`,
/// as program address, accounts and payload, where one can be built.
pub open spec fn build_spec(
    config: Config,
    dex: DexType,
    token_in: Address,
    token_out: Address,
    amount: u64,
) -> Result<(Seq<u8>, Seq<Address>, Seq<u8>), BuildError> {
    match dex {
        DexType::Raydium => match address_of_base58(config.dex.raydium.program_id@) {
            None => Err(BuildError::InvalidProgramId),
            Some(program) => Ok((program, seq![token_in, token_out], swap_data_spec(amount))),
        },
        _ => Err(BuildError::NotSupported),
    }
}

/// `r` is the instruction that `build_spec` gives, or its error.
pub open spec fn built_as(
    r: Result<ProgramInstruction, BuildError>,
    expected: Result<(Seq<u8>, Seq<Address>, Seq<u8>), BuildError>,
) -> bool {
    match expected {
        Err(e) => r == Err::<ProgramInstruction, BuildError>(e),
        Ok((program, accounts, data)) => {
            &&& r is Ok
            &&& r->Ok_0.program_id.bytes@ == program
            &&& r->Ok_0.accounts@ == accounts
            &&& r->Ok_0.data@ == data
        },
    }
}

/// Relies on `solana_sdk::compute_budget::ComputeBudgetInstruction::set_compute_unit_price`:
/// an instruction to the compute-budget program, naming no account, whose
/// payload is the byte 3 followed by the price's eight little-endian bytes.
#[verifier::external_body]
fn compute_unit_price_instruction(micro_lamports: u64) -> (r: ProgramInstruction)
    ensures
        base58_of_address(r.program_id.bytes@) == "ComputeBudget111111111111111111111111111111"@,
        r.accounts@.len() == 0,
        r.data@ == seq![3u8] + le_bytes(micro_lamports as nat, 8),
{
    let ix = solana_sdk::compute_budget::ComputeBudgetInstruction::set_compute_unit_price(micro_lamports);
    ProgramInstruction {
        program_id: Address { bytes: ix.program_id.to_bytes() },
        accounts: ix.accounts.iter().map(|m| Address { bytes: m.pubkey.to_bytes() }).collect(),
        data: ix.data,
    }
}

/// `ix` sets the compute-unit price to `micro_lamports`.
pub open spec fn is_priority_fee(ix: ProgramInstruction, micro_lamports: u64) -> bool {
    &&& base58_of_address(ix.program_id.bytes@) == "ComputeBudget111111111111111111111111111111"@
    &&& ix.accounts@.len() == 0
    &&& ix.data@ == seq![3u8] + le_bytes(micro_lamports as nat, 8)
}

/// Builds the bot's two legs for an opportunity.
pub struct TransactionExecutor {
    pub config: Config,
}

impl TransactionExecutor {
    pub fn new(config: Config) -> (r: Self)
        ensures
            r.config == config,
    {
        TransactionExecutor { config }
    }

    /// A swap of `amount` of `token_in` for `token_out` on `dex`; the order of
    /// the two mints gives the direction.
    pub fn build_swap_instruction(
        &self,
        dex: DexType,
        token_in: &Address,
        token_out: &Address,
        amount: u64,
    ) -> (r: Result<ProgramInstruction, BuildError>)
        ensures
            built_as(r, build_spec(self.config, dex, *token_in, *token_out, amount)),
    {
        match dex {
            DexType::Raydium => match address_from_base58(self.config.dex.raydium.program_id.as_str()) {
                None => Err(BuildError::InvalidProgramId),
                Some(program_id) => {
                    let mut accounts: Vec<Address> = Vec::new();
                    accounts.push(*token_in);
                    accounts.push(*token_out);
                    proof {
                        assert(accounts@ =~= seq![*token_in, *token_out]);
                    }
                    Ok(ProgramInstruction { program_id, accounts, data: swap_instruction_data(amount) })
                },
            },
            _ => Err(BuildError::NotSupported),
        }
    }

    /// The priority-fee instruction, at the configured compute-unit price.
    pub fn build_compute_budget_instruction(&self) -> (r: ProgramInstruction)
        ensures
            is_priority_fee(r, self.config.strategy.priority_fee),
    {
        compute_unit_price_instruction(self.config.strategy.priority_fee)
    }

    /// The instructions of one leg's transaction: the priority fee, then the swap.
    pub fn leg_instructions(&self, swap: ProgramInstruction) -> (r: Vec<ProgramInstruction>)
        ensures
            r@.len() == 2,
            is_priority_fee(r@[0], self.config.strategy.priority_fee),
            r@[1] == swap,
    {
        let mut instructions: Vec<ProgramInstruction> = Vec::new();
        instructions.push(self.build_compute_budget_instruction());
        instructions.push(swap);
        instructions
    }

    /// The front-run: buy `token_out` with `front_run_amount` of `token_in`.
    pub fn front_run_instruction(&self, opportunity: &SandwichOpportunity) -> (r: Result<
        ProgramInstruction,
        BuildError,
    >)
        ensures
            built_as(
                r,
                build_spec(
                    self.config,
                    opportunity.dex,
                    opportunity.token_in,
                    opportunity.token_out,
                    opportunity.front_run_amount,
                ),
            ),
    {
        self.build_swap_instruction(
            opportunity.dex,
            &opportunity.token_in,
            &opportunity.token_out,
            opportunity.front_run_amount,
        )
    }

    /// The back-run: sell `back_run_amount` of `token_out` back into `token_in`.
    pub fn back_run_instruction(&self, opportunity: &SandwichOpportunity) -> (r: Result<
        ProgramInstruction,
        BuildError,
    >)
        ensures
            built_as(
                r,
                build_spec(
                    self.config,
                    opportunity.dex,
                    opportunity.token_out,
                    opportunity.token_in,
                    opportunity.back_run_amount,
                ),
            ),
    {
        self.build_swap_instruction(
            opportunity.dex,
            &opportunity.token_out,
            &opportunity.token_in,
            opportunity.back_run_amount,
        )
    }
}

} // verus!
