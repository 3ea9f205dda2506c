use vstd::prelude::*;
use crate::address::Address;
use crate::instruction::{
    AccountRef, InstructionPlan, SwapInstruction, WHIRLPOOL_PROGRAM_ID, orca_swap_data,
    orca_swap_discriminator, swap_args_bytes,
};
use crate::model::{ArbitrageError, ArbitrageState, OrcaSwapExecuted};

verus! {

/// The accounts of a single Whirlpool swap.
#[derive(Clone, Copy, Debug)]
pub struct OrcaSwap {
    pub user: Address,
    pub arbitrage_state: ArbitrageState,
    pub whirlpool: Address,
    pub token_owner_account_a: Address,
    pub token_vault_a: Address,
    pub token_owner_account_b: Address,
    pub token_vault_b: Address,
    pub tick_array_0: Address,
    pub tick_array_1: Address,
    pub tick_array_2: Address,
    pub oracle: Address,
    pub token_program: Address,
    pub whirlpool_program: Address,
}

pub open spec fn is_zero_address(a: Address) -> bool {
    a@ == Seq::new(32, |i: int| 0u8)
}

/// The accounts of the Whirlpool `swap` call, in the order the program reads
/// them.
pub open spec fn orca_cpi_accounts(ctx: OrcaSwap) -> Seq<AccountRef> {
    seq![
        AccountRef { pubkey: ctx.token_program, is_signer: false, is_writable: false },
        AccountRef { pubkey: ctx.user, is_signer: true, is_writable: false },
        AccountRef { pubkey: ctx.whirlpool, is_signer: false, is_writable: true },
        AccountRef { pubkey: ctx.token_owner_account_a, is_signer: false, is_writable: true },
        AccountRef { pubkey: ctx.token_vault_a, is_signer: false, is_writable: true },
        AccountRef { pubkey: ctx.token_owner_account_b, is_signer: false, is_writable: true },
        AccountRef { pubkey: ctx.token_vault_b, is_signer: false, is_writable: true },
        AccountRef { pubkey: ctx.tick_array_0, is_signer: false, is_writable: true },
        AccountRef { pubkey: ctx.tick_array_1, is_signer: false, is_writable: true },
        AccountRef { pubkey: ctx.tick_array_2, is_signer: false, is_writable: true },
        AccountRef { pubkey: ctx.oracle, is_signer: false, is_writable: false },
    ]
}

/// The first reason a Whirlpool swap of `amount` is refused, if any.
pub open spec fn orca_swap_error(ctx: OrcaSwap, amount: u64) -> Option<ArbitrageError> {
    if ctx.arbitrage_state.is_paused {
        Some(ArbitrageError::BotPaused)
    } else if amount == 0 {
        Some(ArbitrageError::InvalidAmount)
    } else if is_zero_address(ctx.whirlpool) || is_zero_address(ctx.token_owner_account_a)
        || is_zero_address(ctx.token_owner_account_b) {
        Some(ArbitrageError::AccountValidationFailed)
    } else {
        None
    }
}

impl OrcaSwap {
    /// The pool and both owner accounts must be real accounts.
    pub fn validate_accounts(&self) -> (r: Result<(), ArbitrageError>)
        ensures
            r is Ok <==> !is_zero_address(self.whirlpool) && !is_zero_address(
                self.token_owner_account_a,
            ) && !is_zero_address(self.token_owner_account_b),
            r matches Err(e) ==> e == ArbitrageError::AccountValidationFailed,
    {
        if self.whirlpool.is_zero() {
            return Err(ArbitrageError::AccountValidationFailed);
        }
        if self.token_owner_account_a.is_zero() {
            return Err(ArbitrageError::AccountValidationFailed);
        }
        if self.token_owner_account_b.is_zero() {
            return Err(ArbitrageError::AccountValidationFailed);
        }
        Ok(())
    }
}

/// Admits a Whirlpool swap and builds the call that performs it.
pub fn orca_swap(
    ctx: &OrcaSwap,
    amount: u64,
    other_amount_threshold: u64,
    sqrt_price_limit: u128,
    amount_specified_is_input: bool,
    a_to_b: bool,
) -> (r: Result<InstructionPlan, ArbitrageError>)
    ensures
        r is Ok <==> orca_swap_error(*ctx, amount) is None,
        r matches Err(e) ==> orca_swap_error(*ctx, amount) == Some(e),
        r matches Ok(ix) ==> ix.program_id.bytes == WHIRLPOOL_PROGRAM_ID && ix.accounts@
            == orca_cpi_accounts(*ctx) && ix.data@ == orca_swap_discriminator() + swap_args_bytes(
            SwapInstruction {
                amount,
                other_amount_threshold,
                sqrt_price_limit,
                amount_specified_is_input,
                a_to_b,
            },
        ),
{
    if ctx.arbitrage_state.is_paused {
        return Err(ArbitrageError::BotPaused);
    }
    if amount == 0 {
        return Err(ArbitrageError::InvalidAmount);
    }
    ctx.validate_accounts()?;
    let args = SwapInstruction {
        amount,
        other_amount_threshold,
        sqrt_price_limit,
        amount_specified_is_input,
        a_to_b,
    };
    let accounts = vec![
        AccountRef::new_readonly(ctx.token_program, false),
        AccountRef::new_readonly(ctx.user, true),
        AccountRef::new(ctx.whirlpool, false),
        AccountRef::new(ctx.token_owner_account_a, false),
        AccountRef::new(ctx.token_vault_a, false),
        AccountRef::new(ctx.token_owner_account_b, false),
        AccountRef::new(ctx.token_vault_b, false),
        AccountRef::new(ctx.tick_array_0, false),
        AccountRef::new(ctx.tick_array_1, false),
        AccountRef::new(ctx.tick_array_2, false),
        AccountRef::new_readonly(ctx.oracle, false),
    ];
    assert(accounts@ =~= orca_cpi_accounts(*ctx));
    let data = orca_swap_data(&args);
    Ok(InstructionPlan { program_id: Address::new(WHIRLPOOL_PROGRAM_ID), accounts, data })
}

/// Records a Whirlpool swap that went through at `now`: one more trade and the
/// time, or `ArithmeticError` with nothing changed when the counter is full.
pub fn complete_orca_swap(
    ctx: &mut OrcaSwap,
    amount: u64,
    other_amount_threshold: u64,
    a_to_b: bool,
    now: i64,
) -> (r: Result<OrcaSwapExecuted, ArbitrageError>)
    ensures
        old(ctx).arbitrage_state.total_trades == u64::MAX ==> r == Err::<
            OrcaSwapExecuted,
            ArbitrageError,
        >(ArbitrageError::ArithmeticError) && *final(ctx) == *old(ctx),
        old(ctx).arbitrage_state.total_trades < u64::MAX ==> r == Ok::<
            OrcaSwapExecuted,
            ArbitrageError,
        >(
            OrcaSwapExecuted {
                user: old(ctx).user,
                whirlpool: old(ctx).whirlpool,
                amount,
                other_amount_threshold,
                a_to_b,
                timestamp: now,
            },
        ) && *final(ctx) == (OrcaSwap {
            arbitrage_state: ArbitrageState {
                total_trades: (old(ctx).arbitrage_state.total_trades + 1) as u64,
                last_execution_time: now,
                ..old(ctx).arbitrage_state
            },
            ..*old(ctx)
        }),
{
    let total_trades = match ctx.arbitrage_state.total_trades.checked_add(1) {
        Some(n) => n,
        None => return Err(ArbitrageError::ArithmeticError),
    };
    ctx.arbitrage_state.total_trades = total_trades;
    ctx.arbitrage_state.last_execution_time = now;
    Ok(
        OrcaSwapExecuted {
            user: ctx.user,
            whirlpool: ctx.whirlpool,
            amount,
            other_amount_threshold,
            a_to_b,
            timestamp: now,
        },
    )
}

} // verus!
