use vstd::prelude::*;
use crate::address::Address;
use crate::model::{
    ArbitrageError, ArbitrageState, ArbitrageStateInitialized, BotConfigUpdated, BotPaused,
    BotResumed, ProfitsWithdrawn,
};

verus! {

/// This program's own id.
pub const ID: [u8; 32] = [
    38, 121, 44, 215, 198, 31, 62, 130, 188, 204, 247, 29, 43, 194, 69, 158,
    123, 206, 141, 207, 66, 119, 19, 141, 163, 132, 46, 57, 33, 173, 210, 10,
];

/// The seed that, with the authority's key, derives the address of its record:
/// the bytes of `arbitrage_state`.
pub const STATE_SEED: [u8; 15] = [
    97, 114, 98, 105, 116, 114, 97, 103, 101, 95, 115, 116, 97, 116, 101,
];

/// What `Pubkey::try_find_program_address(&[seed, owner], program_id)` returns:
/// the derived address and its bump, or nothing.
pub uninterp spec fn found_program_address(seed: Seq<u8>, owner: Seq<u8>, program_id: Seq<u8>) -> Option<
    (Seq<u8>, u8),
>;

/// Relies on `Pubkey::try_find_program_address` (solana-program, through
/// anchor_lang) with the seeds `[seed, owner]`: off-chain it hashes the seeds,
/// the program id and each bump in turn, so the result depends on those bytes
/// alone; it returns `None` when no bump gives an address off the curve.
#[verifier::external_body]
fn find_program_address(seed: &[u8; 15], owner: &Address, program_id: &Address) -> (r: Option<
    (Address, u8),
>)
    ensures
        match found_program_address(seed@, owner@, program_id@) {
            Some((a, b)) => r is Some && r->Some_0.0@ == a && r->Some_0.1 == b,
            None => r is None,
        },
{
    let seeds: [&[u8]; 2] = [&seed[..], &owner.bytes[..]];
    let id = anchor_lang::solana_program::pubkey::Pubkey::new_from_array(program_id.bytes);
    match anchor_lang::solana_program::pubkey::Pubkey::try_find_program_address(&seeds, &id) {
        Some((key, bump)) => Some((Address::new(key.to_bytes()), bump)),
        None => None,
    }
}

/// The accounts that create a record: the signing authority.
#[derive(Clone, Copy, Debug)]
pub struct InitializeArbitrageState {
    pub authority: Address,
}

/// A fresh record: running, zeroed counters.
pub open spec fn initial_state(authority: Address, min_execution_interval: i64, bump: u8) -> ArbitrageState {
    ArbitrageState {
        authority,
        is_paused: false,
        min_execution_interval,
        last_execution_time: 0,
        total_trades: 0,
        total_profit: 0,
        bump,
    }
}

/// Creates the record of `authority` with the bump of its derived address;
/// a negative interval is refused.
pub fn initialize_record(
    authority: Address,
    min_execution_interval: i64,
    now: i64,
    bump: u8,
) -> (r: Result<(ArbitrageState, ArbitrageStateInitialized), ArbitrageError>)
    ensures
        min_execution_interval < 0 ==> r == Err::<
            (ArbitrageState, ArbitrageStateInitialized),
            ArbitrageError,
        >(ArbitrageError::InvalidAmount),
        min_execution_interval >= 0 ==> r == Ok::<
            (ArbitrageState, ArbitrageStateInitialized),
            ArbitrageError,
        >(
            (
                initial_state(authority, min_execution_interval, bump),
                ArbitrageStateInitialized { authority, min_execution_interval, timestamp: now },
            ),
        ),
{
    if min_execution_interval < 0 {
        return Err(ArbitrageError::InvalidAmount);
    }
    let state = ArbitrageState {
        authority,
        is_paused: false,
        min_execution_interval,
        last_execution_time: 0,
        total_trades: 0,
        total_profit: 0,
        bump,
    };
    Ok((state, ArbitrageStateInitialized { authority, min_execution_interval, timestamp: now }))
}

/// Creates the record of the signing authority: checks the interval, derives
/// the record's address from the authority's key and keeps its bump.
/// `AccountValidationFailed` when no address can be derived.
pub fn initialize_arbitrage_state(
    ctx: &InitializeArbitrageState,
    min_execution_interval: i64,
    now: i64,
) -> (r: Result<(ArbitrageState, ArbitrageStateInitialized), ArbitrageError>)
    ensures
        min_execution_interval < 0 ==> r == Err::<
            (ArbitrageState, ArbitrageStateInitialized),
            ArbitrageError,
        >(ArbitrageError::InvalidAmount),
        min_execution_interval >= 0 ==> match found_program_address(
            STATE_SEED@,
            ctx.authority@,
            ID@,
        ) {
            None => r == Err::<(ArbitrageState, ArbitrageStateInitialized), ArbitrageError>(
                ArbitrageError::AccountValidationFailed,
            ),
            Some((_, bump)) => r == Ok::<
                (ArbitrageState, ArbitrageStateInitialized),
                ArbitrageError,
            >(
                (
                    initial_state(ctx.authority, min_execution_interval, bump),
                    ArbitrageStateInitialized {
                        authority: ctx.authority,
                        min_execution_interval,
                        timestamp: now,
                    },
                ),
            ),
        },
{
    if min_execution_interval < 0 {
        return Err(ArbitrageError::InvalidAmount);
    }
    match find_program_address(&STATE_SEED, &ctx.authority, &Address::new(ID)) {
        None => Err(ArbitrageError::AccountValidationFailed),
        Some((_, bump)) => initialize_record(ctx.authority, min_execution_interval, now, bump),
    }
}


/// The accounts of `pause_bot`: the signer and the record it claims to own.
#[derive(Clone, Copy, Debug)]
pub struct PauseBot {
    pub authority: Address,
    pub arbitrage_state: ArbitrageState,
}

/// The accounts of `resume_bot`.
#[derive(Clone, Copy, Debug)]
pub struct ResumeBot {
    pub authority: Address,
    pub arbitrage_state: ArbitrageState,
}

/// The accounts of `update_bot_config`.
#[derive(Clone, Copy, Debug)]
pub struct UpdateBotConfig {
    pub authority: Address,
    pub arbitrage_state: ArbitrageState,
}

/// The accounts of `withdraw_profits`.
#[derive(Clone, Copy, Debug)]
pub struct WithdrawProfits {
    pub authority: Address,
    pub arbitrage_state: ArbitrageState,
}

/// Pausing: by the authority only; the flag is set and an event is emitted on
/// every call, also when the bot was already paused.
pub open spec fn pause_result(state: ArbitrageState, caller: Address, now: i64) -> Result<
    (ArbitrageState, BotPaused),
    ArbitrageError,
> {
    if caller != state.authority {
        Err(ArbitrageError::Unauthorized)
    } else {
        Ok((ArbitrageState { is_paused: true, ..state }, BotPaused { authority: caller, timestamp: now }))
    }
}

/// Resuming: by the authority only; the flag is cleared and an event is
/// emitted on every call.
pub open spec fn resume_result(state: ArbitrageState, caller: Address, now: i64) -> Result<
    (ArbitrageState, BotResumed),
    ArbitrageError,
> {
    if caller != state.authority {
        Err(ArbitrageError::Unauthorized)
    } else {
        Ok(
            (
                ArbitrageState { is_paused: false, ..state },
                BotResumed { authority: caller, timestamp: now },
            ),
        )
    }
}

/// Updating the configuration: by the authority only; a new interval, if
/// given, must not be negative.
pub open spec fn update_config_result(
    state: ArbitrageState,
    caller: Address,
    new_min_execution_interval: Option<i64>,
    now: i64,
) -> Result<(ArbitrageState, BotConfigUpdated), ArbitrageError> {
    if caller != state.authority {
        Err(ArbitrageError::Unauthorized)
    } else if new_min_execution_interval matches Some(i) && i < 0 {
        Err(ArbitrageError::InvalidAmount)
    } else {
        let s = match new_min_execution_interval {
            Some(i) => ArbitrageState { min_execution_interval: i, ..state },
            None => state,
        };
        Ok(
            (
                s,
                BotConfigUpdated { authority: caller, new_min_execution_interval, timestamp: now },
            ),
        )
    }
}

/// Withdrawing: by the authority only; a positive amount no larger than the
/// available balance. The record itself never changes.
pub open spec fn withdraw_result(
    state: ArbitrageState,
    caller: Address,
    amount: u64,
    available_balance: u64,
    now: i64,
) -> Result<ProfitsWithdrawn, ArbitrageError> {
    if caller != state.authority {
        Err(ArbitrageError::Unauthorized)
    } else if amount == 0 || available_balance < amount {
        Err(ArbitrageError::InsufficientBalance)
    } else {
        Ok(ProfitsWithdrawn { authority: caller, amount, timestamp: now })
    }
}

/// Whether `caller` owns `state`.
pub fn has_authority(state: &ArbitrageState, caller: &Address) -> (r: bool)
    ensures
        r == (*caller == state.authority),
{
    caller.same_as(&state.authority)
}

/// Pauses the bot.
pub fn pause_bot(ctx: &mut PauseBot, now: i64) -> (r: Result<BotPaused, ArbitrageError>)
    ensures
        match pause_result(old(ctx).arbitrage_state, old(ctx).authority, now) {
            Ok((s, ev)) => r == Ok::<BotPaused, ArbitrageError>(ev) && final(ctx).arbitrage_state
                == s && final(ctx).authority == old(ctx).authority,
            Err(e) => r == Err::<BotPaused, ArbitrageError>(e) && *final(ctx) == *old(ctx),
        },
{
    if !has_authority(&ctx.arbitrage_state, &ctx.authority) {
        return Err(ArbitrageError::Unauthorized);
    }
    ctx.arbitrage_state.is_paused = true;
    Ok(BotPaused { authority: ctx.authority, timestamp: now })
}

/// Resumes the bot.
pub fn resume_bot(ctx: &mut ResumeBot, now: i64) -> (r: Result<BotResumed, ArbitrageError>)
    ensures
        match resume_result(old(ctx).arbitrage_state, old(ctx).authority, now) {
            Ok((s, ev)) => r == Ok::<BotResumed, ArbitrageError>(ev) && final(ctx).arbitrage_state
                == s && final(ctx).authority == old(ctx).authority,
            Err(e) => r == Err::<BotResumed, ArbitrageError>(e) && *final(ctx) == *old(ctx),
        },
{
    if !has_authority(&ctx.arbitrage_state, &ctx.authority) {
        return Err(ArbitrageError::Unauthorized);
    }
    ctx.arbitrage_state.is_paused = false;
    Ok(BotResumed { authority: ctx.authority, timestamp: now })
}

/// Sets a new minimum interval between executions, if one is given.
pub fn update_bot_config(
    ctx: &mut UpdateBotConfig,
    new_min_execution_interval: Option<i64>,
    now: i64,
) -> (r: Result<BotConfigUpdated, ArbitrageError>)
    ensures
        match update_config_result(
            old(ctx).arbitrage_state,
            old(ctx).authority,
            new_min_execution_interval,
            now,
        ) {
            Ok((s, ev)) => r == Ok::<BotConfigUpdated, ArbitrageError>(ev)
                && final(ctx).arbitrage_state == s && final(ctx).authority == old(ctx).authority,
            Err(e) => r == Err::<BotConfigUpdated, ArbitrageError>(e) && *final(ctx) == *old(ctx),
        },
{
    if !has_authority(&ctx.arbitrage_state, &ctx.authority) {
        return Err(ArbitrageError::Unauthorized);
    }
    if let Some(interval) = new_min_execution_interval {
        if interval < 0 {
            return Err(ArbitrageError::InvalidAmount);
        }
        ctx.arbitrage_state.min_execution_interval = interval;
    }
    Ok(BotConfigUpdated { authority: ctx.authority, new_min_execution_interval, timestamp: now })
}

/// Authorises moving `amount` of the bot's balance to the authority; the
/// caller performs the transfer when this returns `Ok`.
pub fn withdraw_profits(
    ctx: &WithdrawProfits,
    amount: u64,
    available_balance: u64,
    now: i64,
) -> (r: Result<ProfitsWithdrawn, ArbitrageError>)
    ensures
        r == withdraw_result(ctx.arbitrage_state, ctx.authority, amount, available_balance, now),
{
    if !has_authority(&ctx.arbitrage_state, &ctx.authority) {
        return Err(ArbitrageError::Unauthorized);
    }
    if amount == 0 || available_balance < amount {
        return Err(ArbitrageError::InsufficientBalance);
    }
    Ok(ProfitsWithdrawn { authority: ctx.authority, amount, timestamp: now })
}

/// Every administrative operation asked for by anyone but the record's
/// authority fails with `Unauthorized` (and, by the operations' own
/// contracts, changes nothing).
pub proof fn lemma_admin_requires_authority(
    state: ArbitrageState,
    caller: Address,
    new_min_execution_interval: Option<i64>,
    amount: u64,
    available_balance: u64,
    now: i64,
)
    requires
        caller != state.authority,
    ensures
        pause_result(state, caller, now) == Err::<(ArbitrageState, BotPaused), ArbitrageError>(
            ArbitrageError::Unauthorized,
        ),
        resume_result(state, caller, now) == Err::<(ArbitrageState, BotResumed), ArbitrageError>(
            ArbitrageError::Unauthorized,
        ),
        update_config_result(state, caller, new_min_execution_interval, now) == Err::<
            (ArbitrageState, BotConfigUpdated),
            ArbitrageError,
        >(ArbitrageError::Unauthorized),
        withdraw_result(state, caller, amount, available_balance, now) == Err::<
            ProfitsWithdrawn,
            ArbitrageError,
        >(ArbitrageError::Unauthorized),
{
}

} // verus!
