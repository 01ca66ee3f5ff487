use std::str::FromStr;

use proofofclick::accounts::{
    BuyCursor, InitMint2, InitPlan, MintBalances, MintSendToken, PayerAccounts, ProgramError,
    TokenInstruction,
};
use proofofclick::address::{same_address, Address};
use proofofclick::config::{
    enables, Deployment, Operation, authority_seed_bytes, click_token, cursor_token, program_id, AUTHORITY_BUMP, BASE_UNIT,
    EXCHANGE_BURN, EXCHANGE_MINT,
};
use proofofclick::engine::{
    authority_address, buy_cursor, check_payer_accounts, initialize_mint_v2,
    mint_and_send_one_token, mint_based_on_balances, plan_buy_cursor, plan_initialize,
    plan_mint_and_send, plan_mint_based_on_balances,
};
use solana_program::pubkey::Pubkey;

fn key(a: &Address) -> Pubkey {
    Pubkey::new_from_array(a.bytes)
}

fn addr(k: &Pubkey) -> Address {
    Address { bytes: k.to_bytes() }
}

fn filled(b: u8) -> Address {
    Address { bytes: [b; 32] }
}

fn payer() -> Address {
    filled(7)
}

fn derived_authority() -> Address {
    let (k, _) = Pubkey::find_program_address(&[b"mint"], &key(&program_id()));
    addr(&k)
}

fn ata(owner: &Address, mint: &Address) -> Address {
    addr(&anchor_spl::associated_token::get_associated_token_address(&key(owner), &key(mint)))
}

fn valid_accounts(click: Option<u64>, cursor: Option<u64>) -> PayerAccounts {
    let p = payer();
    PayerAccounts {
        payer: p,
        payer_is_signer: true,
        click_token_mint: click_token(),
        cursor_token_mint: cursor_token(),
        click_token_account: ata(&p, &click_token()),
        click_balance: click,
        cursor_token_account: ata(&p, &cursor_token()),
        cursor_balance: cursor,
        pda_authority: derived_authority(),
        authority_exists: true,
    }
}

#[test]
fn constants_are_the_deployed_addresses() {
    assert_eq!(key(&program_id()), Pubkey::from_str("7khCm9h5cWdU1KBiMztMvzFiXNCum1iwGUcRVFwKhoP9").unwrap());
    assert_eq!(key(&click_token()), Pubkey::from_str("C73wX9ATj7K8K62dFqWEEG14wfupnZqUxZRTXVdEib7S").unwrap());
    assert_eq!(key(&cursor_token()), Pubkey::from_str("9VaYi71F955j88tCc82FAks5iJkRf7YjEyp34MiwU34o").unwrap());
    assert_eq!(&authority_seed_bytes(), b"mint");
    assert_eq!(BASE_UNIT, solana_program::native_token::LAMPORTS_PER_SOL);
    assert_eq!(EXCHANGE_BURN, 50 * BASE_UNIT);
    assert_eq!(EXCHANGE_MINT, BASE_UNIT);
}

#[test]
fn authority_derivation_is_stable() {
    let first = authority_address(AUTHORITY_BUMP);
    let second = authority_address(AUTHORITY_BUMP);
    assert_eq!(first, second);
    assert_eq!(first, Some(derived_authority()));
    let expected = Pubkey::create_program_address(&[b"mint", &[254]], &key(&program_id())).unwrap();
    assert_eq!(first, Some(addr(&expected)));
    assert_ne!(first, Some(program_id()));
}

#[test]
fn authority_on_the_curve_is_none() {
    let mut found = false;
    for bump in 0..=255u8 {
        let expected = Pubkey::create_program_address(&[b"mint", &[bump]], &key(&program_id())).ok();
        assert_eq!(authority_address(bump), expected.map(|k| addr(&k)));
        found = found || expected.is_none();
    }
    assert!(found);
}

#[test]
fn same_address_compares_every_byte() {
    let a = filled(3);
    let mut b = filled(3);
    assert!(same_address(&a, &b));
    b.bytes[31] = 4;
    assert!(!same_address(&a, &b));
}

#[test]
fn mint_by_balance_mints_cursor_balance_plus_one_unit() {
    let a = valid_accounts(Some(12), Some(5));
    let r = mint_based_on_balances(&MintBalances { accounts: a }, 0);
    assert_eq!(
        r,
        Ok(TokenInstruction::MintTo {
            mint: click_token(),
            to: a.click_token_account,
            authority: a.pda_authority,
            bump: 254,
            amount: 5 + 1_000_000_000,
        })
    );
}

#[test]
fn mint_by_balance_with_empty_cursor_mints_one_unit() {
    let a = valid_accounts(Some(0), Some(0));
    match mint_based_on_balances(&MintBalances { accounts: a }, 9) {
        Ok(TokenInstruction::MintTo { amount, to, .. }) => {
            assert_eq!(amount, 1_000_000_000);
            assert_eq!(to, a.click_token_account);
        }
        other => panic!("unexpected {:?}", other),
    }
}

#[test]
fn mint_by_balance_overflow_is_rejected() {
    let a = valid_accounts(Some(0), Some(u64::MAX - 999_999_999));
    assert_eq!(mint_based_on_balances(&MintBalances { accounts: a }, 0), Err(ProgramError::Overflow));
    let b = valid_accounts(Some(0), Some(u64::MAX - 1_000_000_000));
    assert!(mint_based_on_balances(&MintBalances { accounts: b }, 0).is_ok());
}

#[test]
fn buy_cursor_burns_fifty_and_mints_one() {
    let a = valid_accounts(Some(60_000_000_000), Some(0));
    let r = buy_cursor(&BuyCursor { accounts: a }, 0).unwrap();
    assert_eq!(
        r,
        vec![
            TokenInstruction::Burn {
                mint: click_token(),
                from: a.click_token_account,
                owner: a.payer,
                amount: 50_000_000_000,
            },
            TokenInstruction::MintTo {
                mint: cursor_token(),
                to: a.cursor_token_account,
                authority: a.pda_authority,
                bump: 254,
                amount: 1_000_000_000,
            },
        ]
    );
}

#[test]
fn initialize_creates_only_what_is_absent() {
    let fresh = PayerAccounts { authority_exists: false, ..valid_accounts(None, None) };
    let plan = initialize_mint_v2(&InitMint2 { accounts: fresh }).unwrap();
    assert_eq!(
        plan,
        InitPlan { create_authority: true, create_click_account: true, create_cursor_account: true }
    );
    let once = valid_accounts(Some(0), Some(0));
    let again = initialize_mint_v2(&InitMint2 { accounts: once }).unwrap();
    assert_eq!(
        again,
        InitPlan { create_authority: false, create_click_account: false, create_cursor_account: false }
    );
    let partial = valid_accounts(Some(3), None);
    assert_eq!(
        initialize_mint_v2(&InitMint2 { accounts: partial }).unwrap(),
        InitPlan { create_authority: false, create_click_account: false, create_cursor_account: true }
    );
}

#[test]
fn foreign_token_identity_is_rejected() {
    let other = filled(9);
    let wrong_click = PayerAccounts { click_token_mint: other, ..valid_accounts(Some(100_000_000_000), Some(1)) };
    let wrong_cursor = PayerAccounts { cursor_token_mint: other, ..valid_accounts(Some(100_000_000_000), Some(1)) };
    for a in [wrong_click, wrong_cursor] {
        assert_eq!(mint_based_on_balances(&MintBalances { accounts: a }, 0), Err(ProgramError::IdentityMismatch));
        assert_eq!(buy_cursor(&BuyCursor { accounts: a }, 0), Err(ProgramError::IdentityMismatch));
        assert_eq!(initialize_mint_v2(&InitMint2 { accounts: a }), Err(ProgramError::IdentityMismatch));
    }
}

#[test]
fn wrong_holding_account_is_rejected() {
    let swapped = {
        let v = valid_accounts(Some(1), Some(1));
        PayerAccounts { click_token_account: v.cursor_token_account, cursor_token_account: v.click_token_account, ..v }
    };
    assert_eq!(mint_based_on_balances(&MintBalances { accounts: swapped }, 0), Err(ProgramError::IdentityMismatch));
    assert_eq!(buy_cursor(&BuyCursor { accounts: swapped }, 0), Err(ProgramError::IdentityMismatch));
}

#[test]
fn wrong_authority_is_rejected() {
    let a = PayerAccounts { pda_authority: filled(1), ..valid_accounts(Some(100_000_000_000), Some(1)) };
    assert_eq!(mint_based_on_balances(&MintBalances { accounts: a }, 0), Err(ProgramError::Unauthorized));
    assert_eq!(buy_cursor(&BuyCursor { accounts: a }, 0), Err(ProgramError::Unauthorized));
    assert_eq!(initialize_mint_v2(&InitMint2 { accounts: a }), Err(ProgramError::Unauthorized));
}

#[test]
fn missing_signature_is_rejected() {
    let a = PayerAccounts { payer_is_signer: false, ..valid_accounts(Some(1), Some(1)) };
    assert_eq!(mint_based_on_balances(&MintBalances { accounts: a }, 0), Err(ProgramError::Unauthorized));
    assert_eq!(buy_cursor(&BuyCursor { accounts: a }, 0), Err(ProgramError::Unauthorized));
}

#[test]
fn uninitialized_accounts_are_rejected() {
    let no_cursor = valid_accounts(Some(1), None);
    assert_eq!(mint_based_on_balances(&MintBalances { accounts: no_cursor }, 0), Err(ProgramError::NotInitialized));
    let no_marker = PayerAccounts { authority_exists: false, ..valid_accounts(Some(1), Some(1)) };
    assert_eq!(buy_cursor(&BuyCursor { accounts: no_marker }, 0), Err(ProgramError::NotInitialized));
}

#[test]
fn mint_and_send_one_token_mints_one_unit() {
    let m = MintSendToken {
        token_to_mint: filled(5),
        user_minting: payer(),
        user_minting_is_signer: true,
        user_receiving: filled(6),
        pda_authority: derived_authority(),
    };
    assert_eq!(
        mint_and_send_one_token(&m, 254, 0),
        Ok(TokenInstruction::MintTo {
            mint: filled(5),
            to: filled(6),
            authority: derived_authority(),
            bump: 254,
            amount: 1_000_000_000,
        })
    );
    assert_eq!(mint_and_send_one_token(&m, 200, 0), Err(ProgramError::Unauthorized));
    let unsigned = MintSendToken { user_minting_is_signer: false, ..m };
    assert_eq!(mint_and_send_one_token(&unsigned, 254, 0), Err(ProgramError::Unauthorized));
}

#[test]
fn plans_follow_the_given_derivations() {
    let authority = Some(filled(2));
    let click_ata = filled(3);
    let cursor_ata = filled(4);
    let a = PayerAccounts {
        payer: payer(),
        payer_is_signer: true,
        click_token_mint: click_token(),
        cursor_token_mint: cursor_token(),
        click_token_account: click_ata,
        click_balance: Some(70_000_000_000),
        cursor_balance: Some(3),
        cursor_token_account: cursor_ata,
        pda_authority: filled(2),
        authority_exists: true,
    };
    assert_eq!(check_payer_accounts(&a, &authority, &click_ata, &cursor_ata, false), Ok(()));
    assert_eq!(check_payer_accounts(&a, &None, &click_ata, &cursor_ata, false), Err(ProgramError::Unauthorized));
    match plan_mint_based_on_balances(&a, &authority, &click_ata, &cursor_ata) {
        Ok(TokenInstruction::MintTo { amount, .. }) => assert_eq!(amount, 1_000_000_003),
        other => panic!("unexpected {:?}", other),
    }
    assert_eq!(plan_buy_cursor(&a, &authority, &click_ata, &cursor_ata).unwrap().len(), 2);
    assert_eq!(
        plan_buy_cursor(&a, &authority, &cursor_ata, &click_ata),
        Err(ProgramError::IdentityMismatch)
    );
    assert_eq!(
        plan_initialize(&a, &authority, &click_ata, &cursor_ata),
        Ok(InitPlan { create_authority: false, create_click_account: false, create_cursor_account: false })
    );
    let m = MintSendToken {
        token_to_mint: filled(8),
        user_minting: payer(),
        user_minting_is_signer: true,
        user_receiving: filled(9),
        pda_authority: filled(2),
    };
    assert!(plan_mint_and_send(&m, 11, &authority).is_ok());
    assert_eq!(plan_mint_and_send(&m, 11, &Some(filled(1))), Err(ProgramError::Unauthorized));
}

#[test]
fn legacy_deployment_offers_the_general_mint_alone() {
    let all = [
        Operation::MintAndSendOneToken,
        Operation::InitializeMintV2,
        Operation::MintBasedOnBalances,
        Operation::BuyCursor,
    ];
    for op in all {
        assert!(enables(Deployment::Full, op));
        assert_eq!(enables(Deployment::Legacy, op), op == Operation::MintAndSendOneToken);
    }
}
