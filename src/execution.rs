use vstd::prelude::*;
use crate::address::Address;
use crate::model::{
    ArbitrageError, ArbitrageExecuted, ArbitrageState, FlashLoanArbitrageExecuted, LoanTerms,
    SwapRoute, flash_loan_fee, flash_loan_terms,
};

verus! {

/// The largest number of swaps one request may carry.
pub const MAX_HOPS: usize = 4;

/// The accounts an execution without a loan runs against.
#[derive(Clone, Copy, Debug)]
pub struct FlashArbitrage {
    pub user: Address,
    pub arbitrage_state: ArbitrageState,
    pub whirlpool: Address,
    pub amm_id: Address,
}

/// The accounts an execution funded by a flash loan runs against.
#[derive(Clone, Copy, Debug)]
pub struct FlashLoanArbitrage {
    pub user: Address,
    pub arbitrage_state: ArbitrageState,
    pub lending_market: Address,
    pub reserve: Address,
    pub reserve_liquidity_supply: Address,
}

/// The first reason, in the fixed order of the checks, for which an execution
/// attempt is refused before any side effect; `None` when it is admitted.
/// `loan` is the amount to borrow, if any.
pub open spec fn admission_error(
    state: ArbitrageState,
    routes_len: nat,
    expected_profit: u64,
    loan: Option<u64>,
    now: i64,
) -> Option<ArbitrageError> {
    if state.is_paused {
        Some(ArbitrageError::BotPaused)
    } else if routes_len == 0 {
        Some(ArbitrageError::EmptyRoutes)
    } else if routes_len > MAX_HOPS {
        Some(ArbitrageError::TooManyHops)
    } else if expected_profit == 0 {
        Some(ArbitrageError::InvalidAmount)
    } else if loan == Some(0u64) {
        Some(ArbitrageError::InvalidAmount)
    } else if now - state.last_execution_time < state.min_execution_interval {
        Some(ArbitrageError::ExecutionTooFrequent)
    } else if loan matches Some(a) && a + flash_loan_fee(a as nat) > u64::MAX {
        Some(ArbitrageError::ArithmeticError)
    } else {
        None
    }
}

/// Checks the admission conditions in their fixed order.
pub fn check_admission(
    state: &ArbitrageState,
    routes_len: usize,
    expected_profit: u64,
    loan: Option<u64>,
    now: i64,
) -> (r: Result<(), ArbitrageError>)
    ensures
        r is Ok <==> admission_error(*state, routes_len as nat, expected_profit, loan, now) is None,
        r matches Err(e) ==> admission_error(*state, routes_len as nat, expected_profit, loan, now)
            == Some(e),
{
    if state.is_paused {
        return Err(ArbitrageError::BotPaused);
    }
    if routes_len == 0 {
        return Err(ArbitrageError::EmptyRoutes);
    }
    if routes_len > MAX_HOPS {
        return Err(ArbitrageError::TooManyHops);
    }
    if expected_profit == 0 {
        return Err(ArbitrageError::InvalidAmount);
    }
    if loan == Some(0u64) {
        return Err(ArbitrageError::InvalidAmount);
    }
    let elapsed: i128 = now as i128 - state.last_execution_time as i128;
    if elapsed < state.min_execution_interval as i128 {
        return Err(ArbitrageError::ExecutionTooFrequent);
    }
    if let Some(amount) = loan {
        if flash_loan_terms(amount).is_err() {
            return Err(ArbitrageError::ArithmeticError);
        }
    }
    Ok(())
}

/// A call the engine asks its caller to make on a lending pool or a venue.
#[derive(Clone, Copy, Debug, PartialEq, Eq)]
pub enum ExternalCall {
    Borrow { amount: u64 },
    Swap { route: SwapRoute },
    Repay { amount: u64 },
}

/// What an attempt needs next.
#[derive(Clone, Copy, Debug, PartialEq, Eq)]
pub enum Step {
    /// Make this call and hand its outcome to `record`.
    Call(ExternalCall),
    /// The attempt is over: the next route is malformed.
    Reject(ArbitrageError),
    /// Every call succeeded: `settle` decides and commits.
    Settle,
}

/// The event a committed execution emits.
#[derive(Clone, Copy, Debug, PartialEq, Eq)]
pub enum ExecutionEvent {
    Executed(ArbitrageExecuted),
    FlashLoanExecuted(FlashLoanArbitrageExecuted),
}

/// Why a route may not be dispatched, if it may not.
pub open spec fn route_error(route: SwapRoute) -> Option<ArbitrageError> {
    if route.amount_in == 0 || route.min_amount_out == 0 {
        Some(ArbitrageError::InvalidAmount)
    } else if route.input_mint == route.output_mint {
        Some(ArbitrageError::InvalidSwapPair)
    } else {
        None
    }
}

/// Checks the fields of one route.
pub fn validate_route(route: &SwapRoute) -> (r: Result<(), ArbitrageError>)
    ensures
        r is Ok <==> route_error(*route) is None,
        r matches Err(e) ==> route_error(*route) == Some(e),
{
    if route.amount_in == 0 || route.min_amount_out == 0 {
        return Err(ArbitrageError::InvalidAmount);
    }
    if route.input_mint.same_as(&route.output_mint) {
        return Err(ArbitrageError::InvalidSwapPair);
    }
    Ok(())
}

/// The error a call's outcome ends the attempt with, if it does: an error the
/// call reported, or a swap that returned less than the route's minimum.
pub open spec fn outcome_error(call: ExternalCall, outcome: Result<u64, ArbitrageError>) -> Option<
    ArbitrageError,
> {
    match outcome {
        Err(e) => Some(e),
        Ok(out) => match call {
            ExternalCall::Swap { route } => if out < route.min_amount_out {
                Some(ArbitrageError::SlippageExceeded)
            } else {
                None
            },
            _ => None,
        },
    }
}

/// `a + b`, or `u64::MAX` where the sum does not fit.
pub open spec fn saturating_add(a: u64, b: u64) -> u64 {
    if a + b > u64::MAX {
        u64::MAX
    } else {
        (a + b) as u64
    }
}

/// The record after a committed execution at `now` that made `profit`.
pub open spec fn committed(before: ArbitrageState, now: i64, profit: u64) -> ArbitrageState {
    ArbitrageState {
        last_execution_time: now,
        total_trades: (before.total_trades + 1) as u64,
        total_profit: saturating_add(before.total_profit, profit),
        ..before
    }
}

/// One admitted execution attempt, from its first external call to its
/// settlement. Nothing in it touches the bot's record: only `settle` does.
#[derive(Clone, Debug)]
pub struct Attempt {
    pub user: Address,
    pub now: i64,
    pub loan: Option<LoanTerms>,
    pub routes: Vec<SwapRoute>,
    pub expected_profit: u64,
    /// How many external calls have succeeded so far.
    pub completed: usize,
}

impl Attempt {
    /// The calls of the attempt in order: borrow, each swap, repay; without a
    /// loan, the swaps alone.
    pub open spec fn calls(&self) -> Seq<ExternalCall> {
        let swaps = self.routes@.map_values(|r: SwapRoute| ExternalCall::Swap { route: r });
        match self.loan {
            Some(t) => seq![ExternalCall::Borrow { amount: t.amount }] + swaps + seq![
                ExternalCall::Repay { amount: t.repay_amount },
            ],
            None => swaps,
        }
    }

    pub open spec fn wf(&self) -> bool {
        &&& 1 <= self.routes.len() <= MAX_HOPS
        &&& self.completed <= self.calls().len()
        &&& self.loan matches Some(t) ==> t.amount > 0 && t.fee == flash_loan_fee(t.amount as nat)
            && t.repay_amount == t.amount + t.fee
    }

    pub open spec fn spec_next_step(&self) -> Step {
        if self.completed < self.calls().len() {
            let call = self.calls()[self.completed as int];
            match call {
                ExternalCall::Swap { route } => match route_error(route) {
                    Some(e) => Step::Reject(e),
                    None => Step::Call(call),
                },
                _ => Step::Call(call),
            }
        } else {
            Step::Settle
        }
    }

    /// The profit the attempt declares: the expected profit less the loan's
    /// fee, floored at zero.
    pub open spec fn profit(&self) -> u64 {
        match self.loan {
            Some(t) => if self.expected_profit >= t.fee {
                (self.expected_profit - t.fee) as u64
            } else {
                0
            },
            None => self.expected_profit,
        }
    }

    pub open spec fn event(&self) -> ExecutionEvent {
        match self.loan {
            Some(t) => ExecutionEvent::FlashLoanExecuted(
                FlashLoanArbitrageExecuted {
                    user: self.user,
                    flash_loan_amount: t.amount,
                    profit: self.profit(),
                    routes: self.routes.len() as u8,
                    timestamp: self.now,
                },
            ),
            None => ExecutionEvent::Executed(
                ArbitrageExecuted {
                    user: self.user,
                    profit: self.profit(),
                    routes: self.routes.len() as u8,
                    timestamp: self.now,
                },
            ),
        }
    }

    /// What settling against `before` yields: the new record and the one
    /// event, or the error.
    pub open spec fn settlement(&self, before: ArbitrageState) -> Result<
        (ArbitrageState, ExecutionEvent),
        ArbitrageError,
    > {
        if self.profit() == 0 {
            Err(ArbitrageError::InsufficientProfit)
        } else if before.total_trades == u64::MAX {
            Err(ArbitrageError::ArithmeticError)
        } else {
            Ok((committed(before, self.now, self.profit()), self.event()))
        }
    }

    /// What the attempt needs next.
    pub fn next_step(&self) -> (r: Step)
        requires
            self.wf(),
        ensures
            r == self.spec_next_step(),
    {
        let n = self.routes.len();
        let k = self.completed;
        let ghost swaps = self.routes@.map_values(|r: SwapRoute| ExternalCall::Swap { route: r });
        match self.loan {
            Some(t) => {
                proof {
                    let c = self.calls();
                    assert(c.len() == n + 2);
                    assert(c[0] == ExternalCall::Borrow { amount: t.amount });
                    assert(c[n + 1] == ExternalCall::Repay { amount: t.repay_amount });
                    assert(forall|i: int| 1 <= i <= n ==> c[i] == swaps[i - 1]);
                }
                if k == 0 {
                    Step::Call(ExternalCall::Borrow { amount: t.amount })
                } else if k <= n {
                    self.route_step(k - 1)
                } else if k == n + 1 {
                    Step::Call(ExternalCall::Repay { amount: t.repay_amount })
                } else {
                    Step::Settle
                }
            },
            None => {
                if k < n {
                    self.route_step(k)
                } else {
                    Step::Settle
                }
            },
        }
    }

    /// Records the outcome of the call that `next_step` asked for: the amount
    /// it returned (the swap's output; ignored for a borrow or a repay), or its
    /// error. On an error the attempt is over and stays as it was.
    pub fn record(&mut self, outcome: Result<u64, ArbitrageError>) -> (r: Result<(), ArbitrageError>)
        requires
            old(self).wf(),
            old(self).spec_next_step() is Call,
        ensures
            final(self).wf(),
            ({
                let call = old(self).calls()[old(self).completed as int];
                match outcome_error(call, outcome) {
                    Some(e) => r == Err::<(), ArbitrageError>(e) && *final(self) == *old(self),
                    None => r is Ok && *final(self) == (Attempt {
                        completed: (old(self).completed + 1) as usize,
                        ..*old(self)
                    }),
                }
            }),
    {
        // `requires` rules out the other steps.
        let call = match self.next_step() {
            Step::Call(c) => c,
            _ => return Err(ArbitrageError::AccountValidationFailed),
        };
        match outcome {
            Err(e) => Err(e),
            Ok(out) => {
                if let ExternalCall::Swap { route } = call {
                    if out < route.min_amount_out {
                        return Err(ArbitrageError::SlippageExceeded);
                    }
                }
                self.completed = self.completed + 1;
                Ok(())
            },
        }
    }

    /// Decides the attempt once every call has succeeded: the declared profit
    /// must be positive and the trade counter must not overflow. On success the
    /// record is committed in one step and the one event returned; on failure
    /// the record is left exactly as it was.
    pub fn settle(&self, state: &mut ArbitrageState) -> (r: Result<ExecutionEvent, ArbitrageError>)
        requires
            self.wf(),
            self.spec_next_step() == Step::Settle,
        ensures
            match self.settlement(*old(state)) {
                Ok((s, ev)) => r == Ok::<ExecutionEvent, ArbitrageError>(ev) && *final(state) == s,
                Err(e) => r == Err::<ExecutionEvent, ArbitrageError>(e) && *final(state) == *old(
                    state,
                ),
            },
    {
        let profit = match self.loan {
            Some(t) => self.expected_profit.saturating_sub(t.fee),
            None => self.expected_profit,
        };
        if profit == 0 {
            return Err(ArbitrageError::InsufficientProfit);
        }
        let total_trades = match state.total_trades.checked_add(1) {
            Some(n) => n,
            None => return Err(ArbitrageError::ArithmeticError),
        };
        state.last_execution_time = self.now;
        state.total_trades = total_trades;
        state.total_profit = state.total_profit.saturating_add(profit);
        let routes = self.routes.len() as u8;
        match self.loan {
            Some(t) => Ok(
                ExecutionEvent::FlashLoanExecuted(
                    FlashLoanArbitrageExecuted {
                        user: self.user,
                        flash_loan_amount: t.amount,
                        profit,
                        routes,
                        timestamp: self.now,
                    },
                ),
            ),
            None => Ok(
                ExecutionEvent::Executed(
                    ArbitrageExecuted { user: self.user, profit, routes, timestamp: self.now },
                ),
            ),
        }
    }

    fn route_step(&self, i: usize) -> (r: Step)
        requires
            i < self.routes.len(),
        ensures
            r == (match route_error(self.routes@[i as int]) {
                Some(e) => Step::Reject(e),
                None => Step::Call(ExternalCall::Swap { route: self.routes@[i as int] }),
            }),
    {
        let route = self.routes[i];
        match validate_route(&route) {
            Err(e) => Step::Reject(e),
            Ok(()) => Step::Call(ExternalCall::Swap { route }),
        }
    }
}


/// Admits an execution that borrows nothing; the returned attempt is then
/// driven call by call.
pub fn flash_arbitrage(
    ctx: &FlashArbitrage,
    routes: Vec<SwapRoute>,
    expected_profit: u64,
    now: i64,
) -> (r: Result<Attempt, ArbitrageError>)
    ensures
        r is Ok <==> admission_error(ctx.arbitrage_state, routes@.len(), expected_profit, None, now)
            is None,
        r matches Err(e) ==> admission_error(
            ctx.arbitrage_state,
            routes@.len(),
            expected_profit,
            None,
            now,
        ) == Some(e),
        r matches Ok(a) ==> a.wf() && a.user == ctx.user && a.now == now && a.loan is None
            && a.routes@ == routes@ && a.expected_profit == expected_profit && a.completed == 0,
{
    check_admission(&ctx.arbitrage_state, routes.len(), expected_profit, None, now)?;
    Ok(Attempt { user: ctx.user, now, loan: None, routes, expected_profit, completed: 0 })
}

/// Admits an execution funded by a flash loan of `flash_loan_amount`; the
/// returned attempt borrows, swaps along the routes and repays the loan with
/// its fee.
pub fn flash_loan_arbitrage(
    ctx: &FlashLoanArbitrage,
    flash_loan_amount: u64,
    routes: Vec<SwapRoute>,
    expected_profit: u64,
    now: i64,
) -> (r: Result<Attempt, ArbitrageError>)
    ensures
        r is Ok <==> admission_error(
            ctx.arbitrage_state,
            routes@.len(),
            expected_profit,
            Some(flash_loan_amount),
            now,
        ) is None,
        r matches Err(e) ==> admission_error(
            ctx.arbitrage_state,
            routes@.len(),
            expected_profit,
            Some(flash_loan_amount),
            now,
        ) == Some(e),
        r matches Ok(a) ==> a.wf() && a.user == ctx.user && a.now == now && a.loan is Some
            && a.loan->Some_0.amount == flash_loan_amount && a.routes@ == routes@
            && a.expected_profit == expected_profit && a.completed == 0,
{
    check_admission(
        &ctx.arbitrage_state,
        routes.len(),
        expected_profit,
        Some(flash_loan_amount),
        now,
    )?;
    let terms = flash_loan_terms(flash_loan_amount)?;
    Ok(
        Attempt {
            user: ctx.user,
            now,
            loan: Some(terms),
            routes,
            expected_profit,
            completed: 0,
        },
    )
}


/// An attempt whose routes are all well formed either commits exactly once or
/// fails as a whole. Its steps only ever ask for calls until they ask for
/// settlement, and settling it yields either the record with exactly one more
/// trade, the declared profit added (saturating), the attempt's time and every
/// other field unchanged, together with the attempt's one event; or an error
/// (too little profit, or a trade counter at its limit) and no record at all.
pub proof fn lemma_execution_all_or_nothing(a: Attempt, before: ArbitrageState)
    requires
        a.wf(),
        forall|i: int| 0 <= i < a.routes.len() ==> route_error(#[trigger] a.routes@[i]) is None,
    ensures
        a.spec_next_step() is Call || a.spec_next_step() == Step::Settle,
        match a.settlement(before) {
            Ok((s, ev)) => {
                &&& s.total_trades == before.total_trades + 1
                &&& s.total_profit == saturating_add(before.total_profit, a.profit())
                &&& s.last_execution_time == a.now
                &&& s.authority == before.authority
                &&& s.is_paused == before.is_paused
                &&& s.min_execution_interval == before.min_execution_interval
                &&& s.bump == before.bump
                &&& ev == a.event()
            },
            Err(e) => e == ArbitrageError::InsufficientProfit || e == ArbitrageError::ArithmeticError,
        },
{
    if a.completed < a.calls().len() {
        let k = a.completed as int;
        if let Some(t) = a.loan {
            if 1 <= k <= a.routes.len() {
                assert(a.calls()[k] == ExternalCall::Swap { route: a.routes@[k - 1] });
            }
        } else {
            assert(a.calls()[k] == ExternalCall::Swap { route: a.routes@[k] });
        }
    }
}

/// After an execution commits at time `t` on a record whose interval is
/// `I >= 0`, an otherwise admissible attempt at `t + I - 1` is refused as too
/// frequent, and one at `t + I` is not.
pub proof fn lemma_rate_limit(
    a: Attempt,
    before: ArbitrageState,
    routes_len: nat,
    expected_profit: u64,
    loan: Option<u64>,
)
    requires
        a.wf(),
        a.settlement(before) is Ok,
        before.min_execution_interval >= 0,
        i64::MIN < a.now,
        a.now + before.min_execution_interval <= i64::MAX,
        !before.is_paused,
        1 <= routes_len <= MAX_HOPS,
        expected_profit > 0,
        loan != Some(0u64),
    ensures
        ({
            let s = a.settlement(before)->Ok_0.0;
            let t = a.now;
            let i = before.min_execution_interval;
            &&& admission_error(s, routes_len, expected_profit, loan, (t + i - 1) as i64) == Some(
                ArbitrageError::ExecutionTooFrequent,
            )
            &&& admission_error(s, routes_len, expected_profit, loan, (t + i) as i64) != Some(
                ArbitrageError::ExecutionTooFrequent,
            )
        }),
{
}

/// A commit admitted at the attempt's time on a record with a non-negative
/// interval moves nothing backwards: the last execution time, the trade count
/// and the total profit never decrease, and the trade count grows.
pub proof fn lemma_commit_is_monotonic(
    a: Attempt,
    before: ArbitrageState,
    routes_len: nat,
    expected_profit: u64,
    loan: Option<u64>,
)
    requires
        a.wf(),
        before.min_execution_interval >= 0,
        admission_error(before, routes_len, expected_profit, loan, a.now) is None,
        a.settlement(before) is Ok,
    ensures
        ({
            let s = a.settlement(before)->Ok_0.0;
            &&& s.last_execution_time >= before.last_execution_time
            &&& s.total_trades > before.total_trades
            &&& s.total_profit >= before.total_profit
        }),
{
}

/// A paused bot refuses every execution attempt, whatever it carries.
pub proof fn lemma_paused_refuses(
    state: ArbitrageState,
    routes_len: nat,
    expected_profit: u64,
    loan: Option<u64>,
    now: i64,
)
    requires
        state.is_paused,
    ensures
        admission_error(state, routes_len, expected_profit, loan, now) == Some(
            ArbitrageError::BotPaused,
        ),
{
}

/// On a running bot, no routes is refused as empty, more than four as too
/// many hops, and one to four pass both checks.
pub proof fn lemma_route_bounds(
    state: ArbitrageState,
    routes_len: nat,
    expected_profit: u64,
    loan: Option<u64>,
    now: i64,
)
    requires
        !state.is_paused,
    ensures
        routes_len == 0 ==> admission_error(state, routes_len, expected_profit, loan, now) == Some(
            ArbitrageError::EmptyRoutes,
        ),
        routes_len > MAX_HOPS ==> admission_error(state, routes_len, expected_profit, loan, now)
            == Some(ArbitrageError::TooManyHops),
        1 <= routes_len <= MAX_HOPS ==> admission_error(
            state,
            routes_len,
            expected_profit,
            loan,
            now,
        ) != Some(ArbitrageError::EmptyRoutes) && admission_error(
            state,
            routes_len,
            expected_profit,
            loan,
            now,
        ) != Some(ArbitrageError::TooManyHops),
{
}

} // verus!
