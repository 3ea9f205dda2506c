use std::str::FromStr;

use anchor_lang::solana_program::pubkey::Pubkey;
use arbitrage_program::address::Address;
use arbitrage_program::admin::{
    has_authority, initialize_arbitrage_state, initialize_record, pause_bot, resume_bot,
    update_bot_config, withdraw_profits, InitializeArbitrageState, PauseBot, ResumeBot,
    UpdateBotConfig, WithdrawProfits, ID, STATE_SEED,
};
use arbitrage_program::model::{
    ArbitrageError, ArbitrageState, ArbitrageStateInitialized, BotConfigUpdated, BotPaused,
    BotResumed, ProfitsWithdrawn,
};
use arbitrage_program::store::BotStateStore;

fn addr(b: u8) -> Address {
    Address::new([b; 32])
}

fn state() -> ArbitrageState {
    ArbitrageState {
        authority: addr(1),
        is_paused: false,
        min_execution_interval: 60,
        last_execution_time: 7,
        total_trades: 3,
        total_profit: 500,
        bump: 254,
    }
}

#[test]
fn program_id_and_seed_match_their_text() {
    let id = Pubkey::from_str("3bBfJkCFZ8MpenUAxurbQqbphfxUm8UBokfSRth2c3oF").unwrap();
    assert_eq!(id.to_bytes(), ID);
    assert_eq!(&STATE_SEED, b"arbitrage_state");
}

#[test]
fn initialize_keeps_the_derived_bump() {
    let authority = addr(9);
    let (s, event) =
        initialize_arbitrage_state(&InitializeArbitrageState { authority }, 45, 1_700).unwrap();
    let (_, bump) = Pubkey::find_program_address(
        &[b"arbitrage_state", &authority.bytes],
        &Pubkey::new_from_array(ID),
    );
    assert_eq!(s.bump, bump);
    assert_eq!(s.authority, authority);
    assert!(!s.is_paused);
    assert_eq!(s.min_execution_interval, 45);
    assert_eq!((s.last_execution_time, s.total_trades, s.total_profit), (0, 0, 0));
    assert_eq!(
        event,
        ArbitrageStateInitialized { authority, min_execution_interval: 45, timestamp: 1_700 }
    );
}

#[test]
fn negative_interval_is_refused() {
    assert_eq!(
        initialize_arbitrage_state(&InitializeArbitrageState { authority: addr(9) }, -1, 0).err(),
        Some(ArbitrageError::InvalidAmount)
    );
    assert_eq!(initialize_record(addr(9), -5, 0, 1).err(), Some(ArbitrageError::InvalidAmount));
    let (s, _) = initialize_record(addr(9), 0, 0, 17).unwrap();
    assert_eq!(s.bump, 17);
}

#[test]
fn store_refuses_a_second_record() {
    let mut store = BotStateStore::new();
    let ctx = InitializeArbitrageState { authority: addr(2) };
    store.initialize(&ctx, 10, 1).unwrap();
    assert_eq!(store.initialize(&ctx, 20, 2), Err(ArbitrageError::AccountValidationFailed));
    let s = store.load(&addr(2)).unwrap();
    assert_eq!(s.min_execution_interval, 10);
    assert_eq!(store.load(&addr(3)), None);
    assert_eq!(store.records.len(), 1);
}

#[test]
fn store_saves_only_known_records() {
    let mut store = BotStateStore::new();
    store.initialize(&InitializeArbitrageState { authority: addr(2) }, 10, 1).unwrap();
    store.initialize(&InitializeArbitrageState { authority: addr(4) }, 11, 1).unwrap();
    let mut s = store.load(&addr(4)).unwrap();
    s.total_trades = 9;
    store.save(s).unwrap();
    assert_eq!(store.load(&addr(4)).unwrap().total_trades, 9);
    assert_eq!(store.load(&addr(2)).unwrap().total_trades, 0);
    let mut stranger = s;
    stranger.authority = addr(5);
    assert_eq!(store.save(stranger), Err(ArbitrageError::AccountValidationFailed));
    assert_eq!(store.records.len(), 2);
}

#[test]
fn pause_and_resume_by_the_authority() {
    let mut ctx = PauseBot { authority: addr(1), arbitrage_state: state() };
    assert_eq!(pause_bot(&mut ctx, 99), Ok(BotPaused { authority: addr(1), timestamp: 99 }));
    assert!(ctx.arbitrage_state.is_paused);
    // A repeated pause keeps the flag and emits again.
    assert_eq!(pause_bot(&mut ctx, 100), Ok(BotPaused { authority: addr(1), timestamp: 100 }));
    assert!(ctx.arbitrage_state.is_paused);
    let mut rctx = ResumeBot { authority: addr(1), arbitrage_state: ctx.arbitrage_state };
    assert_eq!(resume_bot(&mut rctx, 101), Ok(BotResumed { authority: addr(1), timestamp: 101 }));
    assert!(!rctx.arbitrage_state.is_paused);
    let mut expected = state();
    expected.is_paused = false;
    assert_eq!(rctx.arbitrage_state, expected);
}

#[test]
fn strangers_cannot_administer() {
    let stranger = addr(6);
    let mut p = PauseBot { authority: stranger, arbitrage_state: state() };
    assert_eq!(pause_bot(&mut p, 1), Err(ArbitrageError::Unauthorized));
    assert_eq!(p.arbitrage_state, state());
    let mut paused = state();
    paused.is_paused = true;
    let mut r = ResumeBot { authority: stranger, arbitrage_state: paused };
    assert_eq!(resume_bot(&mut r, 1), Err(ArbitrageError::Unauthorized));
    assert_eq!(r.arbitrage_state, paused);
    let mut u = UpdateBotConfig { authority: stranger, arbitrage_state: state() };
    assert_eq!(update_bot_config(&mut u, Some(5), 1), Err(ArbitrageError::Unauthorized));
    assert_eq!(u.arbitrage_state, state());
    let w = WithdrawProfits { authority: stranger, arbitrage_state: state() };
    assert_eq!(withdraw_profits(&w, 10, 100, 1), Err(ArbitrageError::Unauthorized));
    assert!(!has_authority(&state(), &stranger));
    assert!(has_authority(&state(), &addr(1)));
}

#[test]
fn update_config_sets_or_keeps_the_interval() {
    let mut u = UpdateBotConfig { authority: addr(1), arbitrage_state: state() };
    assert_eq!(
        update_bot_config(&mut u, Some(0), 5),
        Ok(BotConfigUpdated { authority: addr(1), new_min_execution_interval: Some(0), timestamp: 5 })
    );
    assert_eq!(u.arbitrage_state.min_execution_interval, 0);
    assert_eq!(
        update_bot_config(&mut u, None, 6),
        Ok(BotConfigUpdated { authority: addr(1), new_min_execution_interval: None, timestamp: 6 })
    );
    assert_eq!(u.arbitrage_state.min_execution_interval, 0);
    assert_eq!(update_bot_config(&mut u, Some(-1), 7), Err(ArbitrageError::InvalidAmount));
    assert_eq!(u.arbitrage_state.min_execution_interval, 0);
}

#[test]
fn withdraw_needs_a_covered_positive_amount() {
    let w = WithdrawProfits { authority: addr(1), arbitrage_state: state() };
    assert_eq!(
        withdraw_profits(&w, 100, 100, 3),
        Ok(ProfitsWithdrawn { authority: addr(1), amount: 100, timestamp: 3 })
    );
    assert_eq!(withdraw_profits(&w, 101, 100, 3), Err(ArbitrageError::InsufficientBalance));
    assert_eq!(withdraw_profits(&w, 0, 100, 3), Err(ArbitrageError::InsufficientBalance));
}
