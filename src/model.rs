use vstd::prelude::*;
use crate::address::Address;

verus! {

/// Every way an operation of the engine can fail.
#[derive(Clone, Copy, Debug, PartialEq, Eq, Structural)]
pub enum ArbitrageError {
    InvalidAmount,
    EmptyRoutes,
    TooManyHops,
    BotPaused,
    ExecutionTooFrequent,
    InsufficientProfit,
    InsufficientBalance,
    Unauthorized,
    SlippageExceeded,
    InsufficientLiquidity,
    InvalidSwapPair,
    AccountValidationFailed,
    ArithmeticError,
}

/// The trading venues a route can name.
#[derive(Clone, Copy, Debug, PartialEq, Eq, Structural)]
pub enum DexId {
    Orca,
    Raydium,
    Jupiter,
}

/// One swap step of an arbitrage request.
#[derive(Clone, Copy, Debug, PartialEq, Eq)]
pub struct SwapRoute {
    pub dex_id: DexId,
    pub input_mint: Address,
    pub output_mint: Address,
    pub amount_in: u64,
    pub min_amount_out: u64,
}

/// The durable per-authority record of configuration and counters.
#[derive(Clone, Copy, Debug, PartialEq, Eq)]
pub struct ArbitrageState {
    pub authority: Address,
    pub is_paused: bool,
    pub min_execution_interval: i64,
    pub last_execution_time: i64,
    pub total_trades: u64,
    pub total_profit: u64,
    pub bump: u8,
}

impl ArbitrageState {
    /// Stored size: an 8-byte tag, then the fields in declaration order.
    pub const LEN: usize = 8 + 32 + 1 + 8 + 8 + 8 + 8 + 1;
}

/// Emitted once when a record is created.
#[derive(Clone, Copy, Debug, PartialEq, Eq)]
pub struct ArbitrageStateInitialized {
    pub authority: Address,
    pub min_execution_interval: i64,
    pub timestamp: i64,
}

/// Emitted by a committed execution that borrowed nothing.
#[derive(Clone, Copy, Debug, PartialEq, Eq)]
pub struct ArbitrageExecuted {
    pub user: Address,
    pub profit: u64,
    pub routes: u8,
    pub timestamp: i64,
}

/// Emitted by a committed execution funded by a flash loan.
#[derive(Clone, Copy, Debug, PartialEq, Eq)]
pub struct FlashLoanArbitrageExecuted {
    pub user: Address,
    pub flash_loan_amount: u64,
    pub profit: u64,
    pub routes: u8,
    pub timestamp: i64,
}

/// Emitted by a committed single Orca Whirlpool swap.
#[derive(Clone, Copy, Debug, PartialEq, Eq)]
pub struct OrcaSwapExecuted {
    pub user: Address,
    pub whirlpool: Address,
    pub amount: u64,
    pub other_amount_threshold: u64,
    pub a_to_b: bool,
    pub timestamp: i64,
}

/// Emitted by every pause.
#[derive(Clone, Copy, Debug, PartialEq, Eq)]
pub struct BotPaused {
    pub authority: Address,
    pub timestamp: i64,
}

/// Emitted by every resume.
#[derive(Clone, Copy, Debug, PartialEq, Eq)]
pub struct BotResumed {
    pub authority: Address,
    pub timestamp: i64,
}

/// Emitted by a configuration update; `None` when the interval was kept.
#[derive(Clone, Copy, Debug, PartialEq, Eq)]
pub struct BotConfigUpdated {
    pub authority: Address,
    pub new_min_execution_interval: Option<i64>,
    pub timestamp: i64,
}

/// Emitted by an authorised withdrawal.
#[derive(Clone, Copy, Debug, PartialEq, Eq)]
pub struct ProfitsWithdrawn {
    pub authority: Address,
    pub amount: u64,
    pub timestamp: i64,
}

/// The fee the lending pool charges on a flash loan: 0.09%, rounded down.
pub open spec fn flash_loan_fee(amount: nat) -> nat {
    amount * 9 / 10000
}

/// Computes `floor(amount * 9 / 10000)` without an intermediate that could
/// overflow.
pub fn calculate_flash_loan_fee(amount: u64) -> (fee: u64)
    ensures
        fee == flash_loan_fee(amount as nat),
{
    let q: u64 = amount / 10000;
    let r: u64 = amount % 10000;
    proof {
        let a = amount as int;
        let qi = q as int;
        let ri = r as int;
        assert(a == 10000 * qi + ri);
        assert(a * 9 == 10000 * (9 * qi) + ri * 9) by (nonlinear_arith)
            requires a == 10000 * qi + ri;
        assert((10000 * (9 * qi) + ri * 9) / 10000 == 9 * qi + (ri * 9) / 10000) by (nonlinear_arith)
            requires 0 <= ri < 10000, qi >= 0;
        assert(qi * 9 <= a);
    }
    q * 9 + r * 9 / 10000
}

/// What a flash loan of `amount` costs: the fee and the sum to repay.
#[derive(Clone, Copy, Debug, PartialEq, Eq, Structural)]
pub struct LoanTerms {
    pub amount: u64,
    pub fee: u64,
    pub repay_amount: u64,
}

/// The terms of a loan of `amount`; `ArithmeticError` when the sum to repay
/// does not fit in a `u64`.
pub fn flash_loan_terms(amount: u64) -> (r: Result<LoanTerms, ArbitrageError>)
    ensures
        amount + flash_loan_fee(amount as nat) <= u64::MAX <==> r is Ok,
        r matches Ok(t) ==> t.amount == amount && t.fee == flash_loan_fee(amount as nat)
            && t.repay_amount == amount + t.fee,
        r matches Err(e) ==> e == ArbitrageError::ArithmeticError,
{
    let fee = calculate_flash_loan_fee(amount);
    match amount.checked_add(fee) {
        Some(repay_amount) => Ok(LoanTerms { amount, fee, repay_amount }),
        None => Err(ArbitrageError::ArithmeticError),
    }
}

} // verus!
