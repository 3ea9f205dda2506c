use vstd::prelude::*;
use crate::address::Address;
use crate::model::{ArbitrageError, DexId, SwapRoute};

verus! {

/// The Orca Whirlpool program.
pub const WHIRLPOOL_PROGRAM_ID: [u8; 32] = [
    14, 3, 104, 95, 142, 144, 144, 83, 228, 88, 18, 28, 102, 245, 167, 106,
    237, 199, 112, 106, 161, 28, 130, 248, 170, 149, 42, 143, 43, 120, 121, 169,
];

/// The Raydium AMM program.
pub const RAYDIUM_AMM_PROGRAM_ID: [u8; 32] = [
    75, 217, 73, 196, 54, 2, 195, 63, 32, 119, 144, 237, 22, 163, 82, 76,
    161, 185, 151, 92, 241, 33, 162, 169, 12, 255, 236, 125, 248, 182, 138, 205,
];

/// The Solend lending program.
pub const SOLEND_PROGRAM_ID: [u8; 32] = [
    6, 155, 139, 152, 90, 171, 83, 42, 69, 9, 13, 232, 85, 127, 205, 220,
    190, 108, 183, 239, 199, 58, 10, 101, 176, 111, 146, 3, 93, 183, 62, 236,
];

/// The SPL token program.
pub const TOKEN_PROGRAM_ID: [u8; 32] = [
    6, 221, 246, 225, 215, 101, 161, 147, 217, 203, 225, 70, 206, 235, 121, 172,
    28, 180, 133, 237, 95, 91, 55, 145, 58, 140, 245, 133, 126, 255, 0, 169,
];

/// One account an instruction touches, and how.
#[derive(Clone, Copy, Debug, PartialEq, Eq)]
pub struct AccountRef {
    pub pubkey: Address,
    pub is_signer: bool,
    pub is_writable: bool,
}

impl AccountRef {
    /// A writable account.
    pub fn new(pubkey: Address, is_signer: bool) -> (r: AccountRef)
        ensures
            r == (AccountRef { pubkey, is_signer, is_writable: true }),
    {
        AccountRef { pubkey, is_signer, is_writable: true }
    }

    /// A read-only account.
    pub fn new_readonly(pubkey: Address, is_signer: bool) -> (r: AccountRef)
        ensures
            r == (AccountRef { pubkey, is_signer, is_writable: false }),
    {
        AccountRef { pubkey, is_signer, is_writable: false }
    }
}

/// A call into another program: its id, its accounts in order, its payload.
#[derive(Clone, Debug, PartialEq, Eq)]
pub struct InstructionPlan {
    pub program_id: Address,
    pub accounts: Vec<AccountRef>,
    pub data: Vec<u8>,
}

/// The `n` low-order bytes of `x`, least significant first.
pub open spec fn le_bytes(x: nat, n: nat) -> Seq<u8>
    decreases n,
{
    if n == 0 {
        Seq::empty()
    } else {
        seq![(x % 256) as u8] + le_bytes(x / 256, (n - 1) as nat)
    }
}

pub open spec fn bool_byte(b: bool) -> u8 {
    if b {
        1
    } else {
        0
    }
}

/// The eight bytes of `x`, least significant first.
pub fn u64_le_bytes(x: u64) -> (r: Vec<u8>)
    ensures
        r@ == le_bytes(x as nat, 8),
{
    let mut out: Vec<u8> = Vec::new();
    let mut v: u64 = x;
    let mut i: usize = 0;
    while i < 8
        invariant
            i <= 8,
            out@ + le_bytes(v as nat, (8 - i) as nat) == le_bytes(x as nat, 8),
        decreases 8 - i,
    {
        let ghost before = out@;
        out.push((v % 256) as u8);
        proof {
            let rest = le_bytes(v as nat / 256, (8 - i - 1) as nat);
            assert(le_bytes(v as nat, (8 - i) as nat) == seq![(v as nat % 256) as u8] + rest);
            assert(out@ + rest =~= before + (seq![(v as nat % 256) as u8] + rest));
        }
        v = v / 256;
        i = i + 1;
    }
    assert(out@ =~= out@ + le_bytes(v as nat, 0));
    out
}

/// The arguments of a Whirlpool swap, in the order the program reads them.
#[derive(Clone, Copy, Debug, PartialEq, Eq)]
pub struct SwapInstruction {
    pub amount: u64,
    pub other_amount_threshold: u64,
    pub sqrt_price_limit: u128,
    pub amount_specified_is_input: bool,
    pub a_to_b: bool,
}

/// The borsh encoding of a Whirlpool swap's arguments: each field in order,
/// integers little-endian, a flag as one byte.
pub open spec fn swap_args_bytes(args: SwapInstruction) -> Seq<u8> {
    le_bytes(args.amount as nat, 8) + le_bytes(args.other_amount_threshold as nat, 8) + le_bytes(
        args.sqrt_price_limit as nat,
        16,
    ) + seq![bool_byte(args.amount_specified_is_input)] + seq![bool_byte(args.a_to_b)]
}

/// Relies on `anchor_lang::AnchorSerialize` (borsh 0.10) for a tuple of two
/// `u64`, a `u128` and two `bool`: it writes the fields in order, integers with
/// `to_le_bytes`, a `bool` as the byte 0 or 1, and serialising into a `Vec`
/// does not fail.
#[verifier::external_body]
fn borsh_swap_args(
    amount: u64,
    other_amount_threshold: u64,
    sqrt_price_limit: u128,
    amount_specified_is_input: bool,
    a_to_b: bool,
) -> (r: Vec<u8>)
    ensures
        r@ == le_bytes(amount as nat, 8) + le_bytes(other_amount_threshold as nat, 8) + le_bytes(
            sqrt_price_limit as nat,
            16,
        ) + seq![bool_byte(amount_specified_is_input)] + seq![bool_byte(a_to_b)],
{
    let args = (amount, other_amount_threshold, sqrt_price_limit, amount_specified_is_input, a_to_b);
    anchor_lang::AnchorSerialize::try_to_vec(&args).unwrap()
}

impl SwapInstruction {
    /// The serialised arguments.
    pub fn try_to_vec(&self) -> (r: Vec<u8>)
        ensures
            r@ == swap_args_bytes(*self),
    {
        borsh_swap_args(
            self.amount,
            self.other_amount_threshold,
            self.sqrt_price_limit,
            self.amount_specified_is_input,
            self.a_to_b,
        )
    }
}

/// The eight bytes that select the Whirlpool `swap` instruction.
pub open spec fn orca_swap_discriminator() -> Seq<u8> {
    seq![0xf8u8, 0xc6, 0x9e, 0x91, 0xe1, 0x75, 0x87, 0xc8]
}

/// The payload of a Whirlpool swap: its selector, then its arguments.
pub fn orca_swap_data(args: &SwapInstruction) -> (r: Vec<u8>)
    ensures
        r@ == orca_swap_discriminator() + swap_args_bytes(*args),
{
    let mut data: Vec<u8> = vec![0xf8u8, 0xc6, 0x9e, 0x91, 0xe1, 0x75, 0x87, 0xc8];
    let mut tail = args.try_to_vec();
    data.append(&mut tail);
    data
}


/// The accounts of a Solend flash-loan borrow, in order.
pub open spec fn borrow_accounts(user: Address, reserve: Address, reserve_liquidity_supply: Address) -> Seq<
    AccountRef,
> {
    seq![
        AccountRef { pubkey: user, is_signer: true, is_writable: true },
        AccountRef { pubkey: reserve, is_signer: false, is_writable: true },
        AccountRef { pubkey: reserve_liquidity_supply, is_signer: false, is_writable: true },
        AccountRef { pubkey: Address { bytes: TOKEN_PROGRAM_ID }, is_signer: false, is_writable: false },
    ]
}

/// The accounts of a Solend flash-loan repayment, in order.
pub open spec fn repay_accounts(user: Address, reserve: Address) -> Seq<AccountRef> {
    seq![
        AccountRef { pubkey: user, is_signer: true, is_writable: true },
        AccountRef { pubkey: reserve, is_signer: false, is_writable: true },
        AccountRef { pubkey: Address { bytes: TOKEN_PROGRAM_ID }, is_signer: false, is_writable: false },
    ]
}

/// The accounts of a swap paid for with borrowed funds: the token program and
/// the signing user, both read-only.
pub open spec fn venue_accounts(user: Address) -> Seq<AccountRef> {
    seq![
        AccountRef { pubkey: Address { bytes: TOKEN_PROGRAM_ID }, is_signer: false, is_writable: false },
        AccountRef { pubkey: user, is_signer: true, is_writable: false },
    ]
}

/// The Whirlpool arguments of a swap paid for with borrowed funds: the exact
/// input, no price limit, from token A to token B.
pub open spec fn flash_swap_args(amount_in: u64, min_amount_out: u64) -> SwapInstruction {
    SwapInstruction {
        amount: amount_in,
        other_amount_threshold: min_amount_out,
        sqrt_price_limit: u128::MAX,
        amount_specified_is_input: true,
        a_to_b: true,
    }
}

/// The Raydium payload of a swap: its selector, then both amounts.
pub open spec fn raydium_swap_data(amount_in: u64, min_amount_out: u64) -> Seq<u8> {
    seq![0x09u8] + le_bytes(amount_in as nat, 8) + le_bytes(min_amount_out as nat, 8)
}

/// The instruction that borrows `amount` from a Solend reserve.
pub fn create_solend_flash_loan_instruction(
    user: &Address,
    reserve: &Address,
    reserve_liquidity_supply: &Address,
    amount: u64,
) -> (r: Result<InstructionPlan, ArbitrageError>)
    ensures
        r is Ok,
        r->Ok_0.program_id.bytes == SOLEND_PROGRAM_ID,
        r->Ok_0.accounts@ == borrow_accounts(*user, *reserve, *reserve_liquidity_supply),
        r->Ok_0.data@ == seq![0x12u8, 0x34, 0x56, 0x78] + le_bytes(amount as nat, 8),
{
    let accounts = vec![
        AccountRef::new(*user, true),
        AccountRef::new(*reserve, false),
        AccountRef::new(*reserve_liquidity_supply, false),
        AccountRef::new_readonly(Address::new(TOKEN_PROGRAM_ID), false),
    ];
    let mut data: Vec<u8> = vec![0x12u8, 0x34, 0x56, 0x78];
    let mut amount_bytes = u64_le_bytes(amount);
    data.append(&mut amount_bytes);
    assert(accounts@ =~= borrow_accounts(*user, *reserve, *reserve_liquidity_supply));
    Ok(InstructionPlan { program_id: Address::new(SOLEND_PROGRAM_ID), accounts, data })
}

/// The instruction that repays `amount` to a Solend reserve.
pub fn create_solend_flash_loan_repay_instruction(
    user: &Address,
    reserve: &Address,
    amount: u64,
) -> (r: Result<InstructionPlan, ArbitrageError>)
    ensures
        r is Ok,
        r->Ok_0.program_id.bytes == SOLEND_PROGRAM_ID,
        r->Ok_0.accounts@ == repay_accounts(*user, *reserve),
        r->Ok_0.data@ == seq![0x87u8, 0x65, 0x43, 0x21] + le_bytes(amount as nat, 8),
{
    let accounts = vec![
        AccountRef::new(*user, true),
        AccountRef::new(*reserve, false),
        AccountRef::new_readonly(Address::new(TOKEN_PROGRAM_ID), false),
    ];
    let mut data: Vec<u8> = vec![0x87u8, 0x65, 0x43, 0x21];
    let mut amount_bytes = u64_le_bytes(amount);
    data.append(&mut amount_bytes);
    assert(accounts@ =~= repay_accounts(*user, *reserve));
    Ok(InstructionPlan { program_id: Address::new(SOLEND_PROGRAM_ID), accounts, data })
}

/// The Whirlpool swap instruction for a hop paid for with borrowed funds.
pub fn execute_orca_swap_with_flash_loan(
    user: &Address,
    amount_in: u64,
    min_amount_out: u64,
) -> (r: Result<InstructionPlan, ArbitrageError>)
    ensures
        r is Ok,
        r->Ok_0.program_id.bytes == WHIRLPOOL_PROGRAM_ID,
        r->Ok_0.accounts@ == venue_accounts(*user),
        r->Ok_0.data@ == orca_swap_discriminator() + swap_args_bytes(
            flash_swap_args(amount_in, min_amount_out),
        ),
{
    let args = SwapInstruction {
        amount: amount_in,
        other_amount_threshold: min_amount_out,
        sqrt_price_limit: u128::MAX,
        amount_specified_is_input: true,
        a_to_b: true,
    };
    let accounts = vec![
        AccountRef::new_readonly(Address::new(TOKEN_PROGRAM_ID), false),
        AccountRef::new_readonly(*user, true),
    ];
    let data = orca_swap_data(&args);
    assert(accounts@ =~= venue_accounts(*user));
    Ok(InstructionPlan { program_id: Address::new(WHIRLPOOL_PROGRAM_ID), accounts, data })
}

/// The Raydium swap instruction for a hop paid for with borrowed funds.
pub fn execute_raydium_swap_with_flash_loan(
    user: &Address,
    amount_in: u64,
    min_amount_out: u64,
) -> (r: Result<InstructionPlan, ArbitrageError>)
    ensures
        r is Ok,
        r->Ok_0.program_id.bytes == RAYDIUM_AMM_PROGRAM_ID,
        r->Ok_0.accounts@ == venue_accounts(*user),
        r->Ok_0.data@ == raydium_swap_data(amount_in, min_amount_out),
{
    let accounts = vec![
        AccountRef::new_readonly(Address::new(TOKEN_PROGRAM_ID), false),
        AccountRef::new_readonly(*user, true),
    ];
    let mut data: Vec<u8> = vec![0x09u8];
    let mut amount_bytes = u64_le_bytes(amount_in);
    let mut min_bytes = u64_le_bytes(min_amount_out);
    data.append(&mut amount_bytes);
    data.append(&mut min_bytes);
    assert(accounts@ =~= venue_accounts(*user));
    assert(data@ =~= raydium_swap_data(amount_in, min_amount_out));
    Ok(InstructionPlan { program_id: Address::new(RAYDIUM_AMM_PROGRAM_ID), accounts, data })
}

/// The instruction that carries out one hop on its venue, or `None` for a
/// venue reached without an instruction of this program's making (Jupiter).
pub fn swap_instruction(user: &Address, route: &SwapRoute) -> (r: Option<InstructionPlan>)
    ensures
        route.dex_id == DexId::Jupiter <==> r is None,
        route.dex_id == DexId::Orca ==> r is Some && r->Some_0.program_id.bytes
            == WHIRLPOOL_PROGRAM_ID && r->Some_0.accounts@ == venue_accounts(*user)
            && r->Some_0.data@ == orca_swap_discriminator() + swap_args_bytes(
            flash_swap_args(route.amount_in, route.min_amount_out),
        ),
        route.dex_id == DexId::Raydium ==> r is Some && r->Some_0.program_id.bytes
            == RAYDIUM_AMM_PROGRAM_ID && r->Some_0.accounts@ == venue_accounts(*user)
            && r->Some_0.data@ == raydium_swap_data(route.amount_in, route.min_amount_out),
{
    match route.dex_id {
        DexId::Orca => execute_orca_swap_with_flash_loan(
            user,
            route.amount_in,
            route.min_amount_out,
        ).ok(),
        DexId::Raydium => execute_raydium_swap_with_flash_loan(
            user,
            route.amount_in,
            route.min_amount_out,
        ).ok(),
        DexId::Jupiter => None,
    }
}

} // verus!
