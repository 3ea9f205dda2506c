use std::str::FromStr;

use anchor_lang::solana_program::pubkey::Pubkey;
use arbitrage_program::address::Address;
use arbitrage_program::instruction::{
    create_solend_flash_loan_instruction, create_solend_flash_loan_repay_instruction,
    execute_orca_swap_with_flash_loan, execute_raydium_swap_with_flash_loan, swap_instruction,
    u64_le_bytes, AccountRef, SwapInstruction, RAYDIUM_AMM_PROGRAM_ID, SOLEND_PROGRAM_ID,
    TOKEN_PROGRAM_ID, WHIRLPOOL_PROGRAM_ID,
};
use arbitrage_program::model::{ArbitrageError, ArbitrageState, DexId, SwapRoute};
use arbitrage_program::orca::{complete_orca_swap, orca_swap, OrcaSwap};

fn addr(b: u8) -> Address {
    Address::new([b; 32])
}

const ORCA_SELECTOR: [u8; 8] = [0xf8, 0xc6, 0x9e, 0x91, 0xe1, 0x75, 0x87, 0xc8];

#[test]
fn program_ids_match_their_text() {
    let pairs = [
        ("whirLbMiicVdio4qvUfM5KAg6Ct8VwpYzGff3uctyCc", WHIRLPOOL_PROGRAM_ID),
        ("675kPX9MHTjS2zt1qfr1NYHuzeLXfQM9H24wFSUt1Mp8", RAYDIUM_AMM_PROGRAM_ID),
        ("So1endDq2YkqhipRh3WViPa8hdiSpxWy6z3Z6tMCpAo", SOLEND_PROGRAM_ID),
        ("TokenkegQfeZyiNwAJbNbGKPFXCWuBvf9Ss623VQ5DA", TOKEN_PROGRAM_ID),
    ];
    for (text, bytes) in pairs {
        assert_eq!(Pubkey::from_str(text).unwrap().to_bytes(), bytes);
    }
}

#[test]
fn little_endian_bytes() {
    assert_eq!(u64_le_bytes(0x0102_0304_0506_0708), vec![8, 7, 6, 5, 4, 3, 2, 1]);
    assert_eq!(u64_le_bytes(u64::MAX), vec![0xff; 8]);
    assert_eq!(u64_le_bytes(0), vec![0; 8]);
}

#[test]
fn swap_arguments_serialise_field_by_field() {
    let args = SwapInstruction {
        amount: 0x0102,
        other_amount_threshold: 7,
        sqrt_price_limit: 1u128 << 64,
        amount_specified_is_input: true,
        a_to_b: false,
    };
    let mut expected = vec![0x02, 0x01, 0, 0, 0, 0, 0, 0, 7, 0, 0, 0, 0, 0, 0, 0];
    expected.extend_from_slice(&[0, 0, 0, 0, 0, 0, 0, 0, 1, 0, 0, 0, 0, 0, 0, 0]);
    expected.extend_from_slice(&[1, 0]);
    assert_eq!(args.try_to_vec(), expected);
}

#[test]
fn solend_borrow_and_repay() {
    let ix = create_solend_flash_loan_instruction(&addr(1), &addr(2), &addr(3), 1_000_000).unwrap();
    assert_eq!(ix.program_id.bytes, SOLEND_PROGRAM_ID);
    assert_eq!(
        ix.accounts,
        vec![
            AccountRef::new(addr(1), true),
            AccountRef::new(addr(2), false),
            AccountRef::new(addr(3), false),
            AccountRef::new_readonly(Address::new(TOKEN_PROGRAM_ID), false),
        ]
    );
    assert_eq!(ix.data, vec![0x12, 0x34, 0x56, 0x78, 0x40, 0x42, 0x0f, 0, 0, 0, 0, 0]);
    let repay = create_solend_flash_loan_repay_instruction(&addr(1), &addr(2), 1_000_900).unwrap();
    assert_eq!(repay.accounts.len(), 3);
    assert_eq!(repay.data, vec![0x87, 0x65, 0x43, 0x21, 0xc4, 0x45, 0x0f, 0, 0, 0, 0, 0]);
}

#[test]
fn venue_instructions() {
    let orca = execute_orca_swap_with_flash_loan(&addr(1), 5, 4).unwrap();
    assert_eq!(orca.program_id.bytes, WHIRLPOOL_PROGRAM_ID);
    let mut data = ORCA_SELECTOR.to_vec();
    data.extend_from_slice(&[5, 0, 0, 0, 0, 0, 0, 0, 4, 0, 0, 0, 0, 0, 0, 0]);
    data.extend_from_slice(&[0xff; 16]);
    data.extend_from_slice(&[1, 1]);
    assert_eq!(orca.data, data);
    let ray = execute_raydium_swap_with_flash_loan(&addr(1), 5, 4).unwrap();
    assert_eq!(ray.program_id.bytes, RAYDIUM_AMM_PROGRAM_ID);
    assert_eq!(ray.data, vec![9, 5, 0, 0, 0, 0, 0, 0, 0, 4, 0, 0, 0, 0, 0, 0, 0]);
    assert_eq!(
        ray.accounts,
        vec![
            AccountRef::new_readonly(Address::new(TOKEN_PROGRAM_ID), false),
            AccountRef::new_readonly(addr(1), true),
        ]
    );
    let mut route = SwapRoute {
        dex_id: DexId::Raydium,
        input_mint: addr(2),
        output_mint: addr(3),
        amount_in: 5,
        min_amount_out: 4,
    };
    assert_eq!(swap_instruction(&addr(1), &route), Some(ray));
    route.dex_id = DexId::Orca;
    assert_eq!(swap_instruction(&addr(1), &route), Some(orca));
    route.dex_id = DexId::Jupiter;
    assert_eq!(swap_instruction(&addr(1), &route), None);
}

fn orca_ctx() -> OrcaSwap {
    OrcaSwap {
        user: addr(1),
        arbitrage_state: ArbitrageState {
            authority: addr(1),
            is_paused: false,
            min_execution_interval: 0,
            last_execution_time: 0,
            total_trades: 0,
            total_profit: 0,
            bump: 255,
        },
        whirlpool: addr(10),
        token_owner_account_a: addr(11),
        token_vault_a: addr(12),
        token_owner_account_b: addr(13),
        token_vault_b: addr(14),
        tick_array_0: addr(15),
        tick_array_1: addr(16),
        tick_array_2: addr(17),
        oracle: addr(18),
        token_program: Address::new(TOKEN_PROGRAM_ID),
        whirlpool_program: Address::new(WHIRLPOOL_PROGRAM_ID),
    }
}

#[test]
fn orca_swap_builds_the_whirlpool_call() {
    let ctx = orca_ctx();
    let ix = orca_swap(&ctx, 1_000, 990, 77, false, true).unwrap();
    assert_eq!(ix.program_id.bytes, WHIRLPOOL_PROGRAM_ID);
    assert_eq!(ix.accounts.len(), 11);
    assert_eq!(ix.accounts[1], AccountRef::new_readonly(addr(1), true));
    assert_eq!(ix.accounts[2], AccountRef::new(addr(10), false));
    assert_eq!(ix.accounts[10], AccountRef::new_readonly(addr(18), false));
    assert_eq!(&ix.data[..8], &ORCA_SELECTOR);
    assert_eq!(&ix.data[8..10], &[0xe8, 0x03]);
    assert_eq!(ix.data[24], 77);
    assert_eq!(&ix.data[40..], &[0, 1]);
}

#[test]
fn orca_swap_guards() {
    let mut ctx = orca_ctx();
    assert_eq!(orca_swap(&ctx, 0, 1, 0, true, true), Err(ArbitrageError::InvalidAmount));
    ctx.token_owner_account_b = Address::zero();
    assert_eq!(ctx.validate_accounts(), Err(ArbitrageError::AccountValidationFailed));
    assert_eq!(orca_swap(&ctx, 5, 1, 0, true, true), Err(ArbitrageError::AccountValidationFailed));
    ctx.arbitrage_state.is_paused = true;
    assert_eq!(orca_swap(&ctx, 5, 1, 0, true, true), Err(ArbitrageError::BotPaused));
    assert_eq!(orca_ctx().validate_accounts(), Ok(()));
}

#[test]
fn orca_swap_completion_counts_one_trade() {
    let mut ctx = orca_ctx();
    let event = complete_orca_swap(&mut ctx, 1_000, 990, true, 42).unwrap();
    assert_eq!(event.whirlpool, addr(10));
    assert_eq!(event.timestamp, 42);
    assert_eq!(ctx.arbitrage_state.total_trades, 1);
    assert_eq!(ctx.arbitrage_state.last_execution_time, 42);
    ctx.arbitrage_state.total_trades = u64::MAX;
    let before = ctx.arbitrage_state;
    assert_eq!(complete_orca_swap(&mut ctx, 1, 1, true, 43), Err(ArbitrageError::ArithmeticError));
    assert_eq!(ctx.arbitrage_state, before);
}

#[test]
fn address_comparisons() {
    assert!(addr(1).same_as(&addr(1)));
    assert!(!addr(1).same_as(&addr(2)));
    let mut almost = [0u8; 32];
    almost[31] = 1;
    assert!(!Address::new(almost).is_zero());
    assert!(Address::zero().is_zero());
}
