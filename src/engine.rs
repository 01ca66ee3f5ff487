//! The four operations: each checks the accounts it is handed against their
//! roles and, where all checks pass, returns what the ledger is to do.

use vstd::prelude::*;
use crate::address::{
    Address, opt_view, same_address, program_address_of, associated_address_of,
    create_program_address, associated_token_address,
};
use crate::config::{
    BASE_UNIT, AUTHORITY_BUMP, EXCHANGE_BURN, EXCHANGE_MINT, authority_seed, authority_seed_bytes,
    program_id_spec, program_id, click_token_spec, cursor_token_spec, click_token, cursor_token,
};
use crate::accounts::{
    ProgramError, TokenInstruction, MintSendToken, PayerAccounts, InitMint2, MintBalances,
    BuyCursor, InitPlan,
};

verus! {

/// The authority address derived from the authority seed and `bump`.
pub open spec fn authority_for(bump: u8) -> Option<Seq<u8>> {
    program_address_of(authority_seed(), bump, program_id_spec())
}

/// The first check that `a` fails, given the derived authority and the
/// payer's derived CLICK and CURSOR holding accounts. Where `initializing`,
/// accounts that do not exist yet are no failure.
pub open spec fn payer_accounts_error(
    a: PayerAccounts,
    authority: Option<Seq<u8>>,
    click_ata: Seq<u8>,
    cursor_ata: Seq<u8>,
    initializing: bool,
) -> Option<ProgramError> {
    if !a.payer_is_signer {
        Some(ProgramError::Unauthorized)
    } else if a.click_token_mint@ != click_token_spec() || a.cursor_token_mint@ != cursor_token_spec() {
        Some(ProgramError::IdentityMismatch)
    } else if !initializing && (a.click_balance is None || a.cursor_balance is None || !a.authority_exists) {
        Some(ProgramError::NotInitialized)
    } else if a.click_token_account@ != click_ata || a.cursor_token_account@ != cursor_ata {
        Some(ProgramError::IdentityMismatch)
    } else if authority != Some(a.pda_authority@) {
        Some(ProgramError::Unauthorized)
    } else {
        None
    }
}

/// The first check that `a` fails, with the derivations made by the
/// ledger's rules.
pub open spec fn derived_accounts_error(a: PayerAccounts, initializing: bool) -> Option<ProgramError> {
    payer_accounts_error(
        a,
        authority_for(AUTHORITY_BUMP),
        associated_address_of(a.payer@, click_token_spec()),
        associated_address_of(a.payer@, cursor_token_spec()),
        initializing,
    )
}

/// Checks `a` against its roles; see `payer_accounts_error`.
pub fn check_payer_accounts(
    a: &PayerAccounts,
    authority: &Option<Address>,
    click_ata: &Address,
    cursor_ata: &Address,
    initializing: bool,
) -> (r: Result<(), ProgramError>)
    ensures
        r == (match payer_accounts_error(*a, opt_view(*authority), click_ata@, cursor_ata@, initializing) {
            Some(e) => Err(e),
            None => Ok(()),
        }),
{
    if !a.payer_is_signer {
        return Err(ProgramError::Unauthorized);
    }
    let click = click_token();
    let cursor = cursor_token();
    if !same_address(&a.click_token_mint, &click) || !same_address(&a.cursor_token_mint, &cursor) {
        return Err(ProgramError::IdentityMismatch);
    }
    if !initializing && (a.click_balance.is_none() || a.cursor_balance.is_none() || !a.authority_exists) {
        return Err(ProgramError::NotInitialized);
    }
    if !same_address(&a.click_token_account, click_ata) || !same_address(&a.cursor_token_account, cursor_ata) {
        return Err(ProgramError::IdentityMismatch);
    }
    match authority {
        Some(derived) => {
            if !same_address(derived, &a.pda_authority) {
                return Err(ProgramError::Unauthorized);
            }
        },
        None => {
            return Err(ProgramError::Unauthorized);
        },
    }
    Ok(())
}

/// Derives the authority address from the authority seed and `bump`.
pub fn authority_address(bump: u8) -> (r: Option<Address>)
    ensures
        opt_view(r) == authority_for(bump),
{
    let seed = authority_seed_bytes();
    let program = program_id();
    create_program_address(seed.as_slice(), bump, &program)
}

/// Derives the authority and the payer's two holding accounts, then checks
/// `a` against them.
fn check_derived(a: &PayerAccounts, initializing: bool) -> (r: Result<(), ProgramError>)
    ensures
        r == (match derived_accounts_error(*a, initializing) {
            Some(e) => Err(e),
            None => Ok(()),
        }),
{
    let authority = authority_address(AUTHORITY_BUMP);
    let click = click_token();
    let cursor = cursor_token();
    let click_ata = associated_token_address(&a.payer, &click);
    let cursor_ata = associated_token_address(&a.payer, &cursor);
    check_payer_accounts(a, &authority, &click_ata, &cursor_ata, initializing)
}

/// What the general single-token mint returns, given the derived authority.
pub open spec fn mint_send_result(a: MintSendToken, bump: u8, authority: Option<Seq<u8>>) -> Result<
    TokenInstruction,
    ProgramError,
> {
    if !a.user_minting_is_signer {
        Err(ProgramError::Unauthorized)
    } else if authority != Some(a.pda_authority@) {
        Err(ProgramError::Unauthorized)
    } else {
        Ok(
            TokenInstruction::MintTo {
                mint: a.token_to_mint,
                to: a.user_receiving,
                authority: a.pda_authority,
                bump,
                amount: BASE_UNIT,
            },
        )
    }
}

/// Plans the general single-token mint from the authority derived with `bump`.
pub fn plan_mint_and_send(a: &MintSendToken, bump: u8, authority: &Option<Address>) -> (r: Result<
    TokenInstruction,
    ProgramError,
>)
    ensures
        r == mint_send_result(*a, bump, opt_view(*authority)),
{
    if !a.user_minting_is_signer {
        return Err(ProgramError::Unauthorized);
    }
    match authority {
        Some(derived) => {
            if !same_address(derived, &a.pda_authority) {
                return Err(ProgramError::Unauthorized);
            }
        },
        None => {
            return Err(ProgramError::Unauthorized);
        },
    }
    Ok(
        TokenInstruction::MintTo {
            mint: a.token_to_mint,
            to: a.user_receiving,
            authority: a.pda_authority,
            bump,
            amount: BASE_UNIT,
        },
    )
}

/// Mints one whole unit of any token identity to any holding account,
/// authorized by the authority derived with the caller's `bump`. Whether the
/// token identity accepts that authority is for the ledger to decide.
pub fn mint_and_send_one_token(accounts: &MintSendToken, bump: u8, _nonce: u64) -> (r: Result<
    TokenInstruction,
    ProgramError,
>)
    ensures
        r == mint_send_result(*accounts, bump, authority_for(bump)),
{
    let authority = authority_address(bump);
    plan_mint_and_send(accounts, bump, &authority)
}

/// What setup creates: each of the three accounts that is absent.
pub open spec fn init_plan_of(a: PayerAccounts) -> InitPlan {
    InitPlan {
        create_authority: !a.authority_exists,
        create_click_account: a.click_balance is None,
        create_cursor_account: a.cursor_balance is None,
    }
}

/// What setup returns, given the derivations.
pub open spec fn init_result(a: PayerAccounts, authority: Option<Seq<u8>>, click_ata: Seq<u8>, cursor_ata: Seq<u8>) -> Result<
    InitPlan,
    ProgramError,
> {
    match payer_accounts_error(a, authority, click_ata, cursor_ata, true) {
        Some(e) => Err(e),
        None => Ok(init_plan_of(a)),
    }
}

/// Plans setup from the given derivations.
pub fn plan_initialize(a: &PayerAccounts, authority: &Option<Address>, click_ata: &Address, cursor_ata: &Address) -> (r:
    Result<InitPlan, ProgramError>)
    ensures
        r == init_result(*a, opt_view(*authority), click_ata@, cursor_ata@),
{
    match check_payer_accounts(a, authority, click_ata, cursor_ata, true) {
        Err(e) => Err(e),
        Ok(()) => Ok(
            InitPlan {
                create_authority: !a.authority_exists,
                create_click_account: a.click_balance.is_none(),
                create_cursor_account: a.cursor_balance.is_none(),
            },
        ),
    }
}

/// Setup: creates the authority marker and the payer's CLICK and CURSOR
/// holding accounts, each only where it is absent.
pub fn initialize_mint_v2(accounts: &InitMint2) -> (r: Result<InitPlan, ProgramError>)
    ensures
        r == init_result(
            accounts.accounts,
            authority_for(AUTHORITY_BUMP),
            associated_address_of(accounts.accounts.payer@, click_token_spec()),
            associated_address_of(accounts.accounts.payer@, cursor_token_spec()),
        ),
{
    match check_derived(&accounts.accounts, true) {
        Err(e) => Err(e),
        Ok(()) => Ok(
            InitPlan {
                create_authority: !accounts.accounts.authority_exists,
                create_click_account: accounts.accounts.click_balance.is_none(),
                create_cursor_account: accounts.accounts.cursor_balance.is_none(),
            },
        ),
    }
}

/// The mint that mint-by-balance asks for once the accounts have passed
/// their checks: CLICK equal to the CURSOR balance plus one whole unit, into
/// the payer's CLICK account.
pub open spec fn balance_mint(a: PayerAccounts) -> Result<TokenInstruction, ProgramError> {
    match a.cursor_balance {
        Some(b) => if b + BASE_UNIT > u64::MAX {
            Err(ProgramError::Overflow)
        } else {
            Ok(
                TokenInstruction::MintTo {
                    mint: a.click_token_mint,
                    to: a.click_token_account,
                    authority: a.pda_authority,
                    bump: AUTHORITY_BUMP,
                    amount: (b + BASE_UNIT) as u64,
                },
            )
        },
        None => Err(ProgramError::NotInitialized),
    }
}

/// What mint-by-balance returns, given the derivations.
pub open spec fn mint_balances_result(a: PayerAccounts, authority: Option<Seq<u8>>, click_ata: Seq<u8>, cursor_ata: Seq<u8>) -> Result<
    TokenInstruction,
    ProgramError,
> {
    match payer_accounts_error(a, authority, click_ata, cursor_ata, false) {
        Some(e) => Err(e),
        None => balance_mint(a),
    }
}

/// Builds the mint of mint-by-balance for accounts that passed their checks.
fn balance_mint_instruction(a: &PayerAccounts) -> (r: Result<TokenInstruction, ProgramError>)
    ensures
        r == balance_mint(*a),
{
    match a.cursor_balance {
        None => Err(ProgramError::NotInitialized),
        Some(b) => match b.checked_add(BASE_UNIT) {
            None => Err(ProgramError::Overflow),
            Some(amount) => Ok(
                TokenInstruction::MintTo {
                    mint: a.click_token_mint,
                    to: a.click_token_account,
                    authority: a.pda_authority,
                    bump: AUTHORITY_BUMP,
                    amount,
                },
            ),
        },
    }
}

/// Plans mint-by-balance from the given derivations.
pub fn plan_mint_based_on_balances(
    a: &PayerAccounts,
    authority: &Option<Address>,
    click_ata: &Address,
    cursor_ata: &Address,
) -> (r: Result<TokenInstruction, ProgramError>)
    ensures
        r == mint_balances_result(*a, opt_view(*authority), click_ata@, cursor_ata@),
{
    match check_payer_accounts(a, authority, click_ata, cursor_ata, false) {
        Err(e) => Err(e),
        Ok(()) => balance_mint_instruction(a),
    }
}

/// Mint-by-balance: mints to the payer CLICK equal to their CURSOR balance
/// plus one whole unit, authorized by the authority derived with the fixed
/// salt.
pub fn mint_based_on_balances(accounts: &MintBalances, _nonce: u64) -> (r: Result<TokenInstruction, ProgramError>)
    ensures
        r == mint_balances_result(
            accounts.accounts,
            authority_for(AUTHORITY_BUMP),
            associated_address_of(accounts.accounts.payer@, click_token_spec()),
            associated_address_of(accounts.accounts.payer@, cursor_token_spec()),
        ),
{
    match check_derived(&accounts.accounts, false) {
        Err(e) => Err(e),
        Ok(()) => balance_mint_instruction(&accounts.accounts),
    }
}

/// The two steps of the exchange for accounts that passed their checks: burn
/// fifty whole CLICK from the payer, then mint one whole CURSOR to them.
pub open spec fn exchange_steps(a: PayerAccounts) -> Seq<TokenInstruction> {
    seq![
        TokenInstruction::Burn {
            mint: a.click_token_mint,
            from: a.click_token_account,
            owner: a.payer,
            amount: EXCHANGE_BURN,
        },
        TokenInstruction::MintTo {
            mint: a.cursor_token_mint,
            to: a.cursor_token_account,
            authority: a.pda_authority,
            bump: AUTHORITY_BUMP,
            amount: EXCHANGE_MINT,
        },
    ]
}

/// What the exchange returns, given the derivations.
pub open spec fn buy_cursor_result(a: PayerAccounts, authority: Option<Seq<u8>>, click_ata: Seq<u8>, cursor_ata: Seq<u8>) -> Result<
    Seq<TokenInstruction>,
    ProgramError,
> {
    match payer_accounts_error(a, authority, click_ata, cursor_ata, false) {
        Some(e) => Err(e),
        None => Ok(exchange_steps(a)),
    }
}

/// The view of the exchange's result.
pub open spec fn steps_view(r: Result<Vec<TokenInstruction>, ProgramError>) -> Result<Seq<TokenInstruction>, ProgramError> {
    match r {
        Ok(v) => Ok(v@),
        Err(e) => Err(e),
    }
}

/// Builds the two steps of the exchange.
fn exchange_instructions(a: &PayerAccounts) -> (r: Vec<TokenInstruction>)
    ensures
        r@ == exchange_steps(*a),
{
    let mut v: Vec<TokenInstruction> = Vec::new();
    v.push(
        TokenInstruction::Burn {
            mint: a.click_token_mint,
            from: a.click_token_account,
            owner: a.payer,
            amount: EXCHANGE_BURN,
        },
    );
    v.push(
        TokenInstruction::MintTo {
            mint: a.cursor_token_mint,
            to: a.cursor_token_account,
            authority: a.pda_authority,
            bump: AUTHORITY_BUMP,
            amount: EXCHANGE_MINT,
        },
    );
    assert(v@ =~= exchange_steps(*a));
    v
}

/// Plans the exchange from the given derivations.
pub fn plan_buy_cursor(
    a: &PayerAccounts,
    authority: &Option<Address>,
    click_ata: &Address,
    cursor_ata: &Address,
) -> (r: Result<Vec<TokenInstruction>, ProgramError>)
    ensures
        steps_view(r) == buy_cursor_result(*a, opt_view(*authority), click_ata@, cursor_ata@),
{
    match check_payer_accounts(a, authority, click_ata, cursor_ata, false) {
        Err(e) => Err(e),
        Ok(()) => Ok(exchange_instructions(a)),
    }
}

/// The exchange: fifty whole CLICK for one whole CURSOR, as two steps of
/// one atomic transaction. Whether the payer holds enough CLICK is for the
/// ledger to decide.
pub fn buy_cursor(accounts: &BuyCursor, _nonce: u64) -> (r: Result<Vec<TokenInstruction>, ProgramError>)
    ensures
        steps_view(r) == buy_cursor_result(
            accounts.accounts,
            authority_for(AUTHORITY_BUMP),
            associated_address_of(accounts.accounts.payer@, click_token_spec()),
            associated_address_of(accounts.accounts.payer@, cursor_token_spec()),
        ),
{
    match check_derived(&accounts.accounts, false) {
        Err(e) => Err(e),
        Ok(()) => Ok(exchange_instructions(&accounts.accounts)),
    }
}

} // verus!
