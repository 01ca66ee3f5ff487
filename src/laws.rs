//! What holds of the operations together with the ledger model.

use vstd::prelude::*;
use crate::address::{Address, opt_view};
use crate::config::{BASE_UNIT, AUTHORITY_BUMP, EXCHANGE_BURN, EXCHANGE_MINT, click_token_spec, cursor_token_spec};
use crate::accounts::{ProgramError, TokenInstruction, MintSendToken, PayerAccounts, InitPlan};
use crate::engine::{
    authority_for, payer_accounts_error, mint_send_result, init_result, mint_balances_result,
    buy_cursor_result, exchange_steps,
};
use crate::ledger::{step, run, settle, run_until_fault, settle_with_fault};

verus! {

/// The accounts once setup has carried out `plan`: created holding
/// accounts start empty, and the marker exists.
pub open spec fn after_init(a: PayerAccounts, plan: InitPlan) -> PayerAccounts {
    PayerAccounts {
        authority_exists: a.authority_exists || plan.create_authority,
        click_balance: if plan.create_click_account { Some(0u64) } else { a.click_balance },
        cursor_balance: if plan.create_cursor_account { Some(0u64) } else { a.cursor_balance },
        ..a
    }
}

/// The accounts among the marker and the two holding accounts that exist.
pub open spec fn existing_accounts(a: PayerAccounts) -> Set<Seq<u8>> {
    Set::empty()
        .union(if a.authority_exists { set![a.pda_authority@] } else { Set::empty() })
        .union(if a.click_balance is Some { set![a.click_token_account@] } else { Set::empty() })
        .union(if a.cursor_balance is Some { set![a.cursor_token_account@] } else { Set::empty() })
}

/// The authority derived from the seed and a salt is the same on every
/// call: two derivations with one salt, the fixed one among them, agree.
pub proof fn law_authority_is_stable(bump: u8, r1: Option<Address>, r2: Option<Address>)
    requires
        opt_view(r1) == authority_for(bump),
        opt_view(r2) == authority_for(bump),
    ensures
        opt_view(r1) == opt_view(r2),
{
}

/// Mint-by-balance raises the payer's CLICK balance by their CURSOR balance
/// plus one whole unit, and leaves their CURSOR balance as it was.
pub proof fn law_mint_by_balance(
    a: PayerAccounts,
    authority: Option<Seq<u8>>,
    click_ata: Seq<u8>,
    cursor_ata: Seq<u8>,
    bal: Map<Seq<u8>, int>,
)
    requires
        payer_accounts_error(a, authority, click_ata, cursor_ata, false) is None,
        a.click_token_account@ != a.cursor_token_account@,
        bal.contains_key(a.click_token_account@),
        bal.contains_key(a.cursor_token_account@),
        a.cursor_balance == Some(bal[a.cursor_token_account@] as u64),
        0 <= bal[a.click_token_account@],
        0 <= bal[a.cursor_token_account@],
        bal[a.click_token_account@] + bal[a.cursor_token_account@] + BASE_UNIT <= u64::MAX,
    ensures
        ({
            let click = a.click_token_account@;
            let cursor = a.cursor_token_account@;
            &&& mint_balances_result(a, authority, click_ata, cursor_ata) is Ok
            &&& settle(bal, seq![mint_balances_result(a, authority, click_ata, cursor_ata)->Ok_0])[click]
                == bal[click] + bal[cursor] + BASE_UNIT
            &&& settle(bal, seq![mint_balances_result(a, authority, click_ata, cursor_ata)->Ok_0])[cursor]
                == bal[cursor]
        }),
{
    reveal_with_fuel(run, 2);
    let ix = mint_balances_result(a, authority, click_ata, cursor_ata)->Ok_0;
    let ixs = seq![ix];
    assert(ixs.drop_first() =~= Seq::<TokenInstruction>::empty());
    let after = step(bal, ix)->Ok_0;
    assert(step(bal, ix) is Ok);
    assert(run(bal, ixs) == run(after, ixs.drop_first()));
}

/// The exchange takes fifty whole CLICK and gives one whole CURSOR where
/// the payer holds enough CLICK; where they do not, it fails and no balance
/// changes.
pub proof fn law_exchange(
    a: PayerAccounts,
    authority: Option<Seq<u8>>,
    click_ata: Seq<u8>,
    cursor_ata: Seq<u8>,
    bal: Map<Seq<u8>, int>,
)
    requires
        payer_accounts_error(a, authority, click_ata, cursor_ata, false) is None,
        a.click_token_account@ != a.cursor_token_account@,
        bal.contains_key(a.click_token_account@),
        bal.contains_key(a.cursor_token_account@),
        bal[a.cursor_token_account@] + EXCHANGE_MINT <= u64::MAX,
    ensures
        ({
            let click = a.click_token_account@;
            let cursor = a.cursor_token_account@;
            let ixs = exchange_steps(a);
            &&& buy_cursor_result(a, authority, click_ata, cursor_ata) == Ok::<Seq<TokenInstruction>, ProgramError>(ixs)
            &&& bal[click] >= EXCHANGE_BURN ==> {
                &&& run(bal, ixs) is Ok
                &&& settle(bal, ixs)[click] == bal[click] - EXCHANGE_BURN
                &&& settle(bal, ixs)[cursor] == bal[cursor] + EXCHANGE_MINT
            }
            &&& bal[click] < EXCHANGE_BURN ==> {
                &&& run(bal, ixs) == Err::<Map<Seq<u8>, int>, ProgramError>(ProgramError::InsufficientBalance)
                &&& settle(bal, ixs) == bal
            }
        }),
{
    reveal_with_fuel(run, 3);
    let ixs = exchange_steps(a);
    let rest = ixs.drop_first();
    assert(rest.drop_first() =~= Seq::<TokenInstruction>::empty());
    assert(rest[0] == ixs[1]);
    if bal[a.click_token_account@] >= EXCHANGE_BURN {
        let mid = step(bal, ixs[0])->Ok_0;
        assert(step(bal, ixs[0]) is Ok);
        assert(mid[a.cursor_token_account@] == bal[a.cursor_token_account@]);
        assert(step(mid, rest[0]) is Ok);
        assert(run(bal, ixs) == run(mid, rest));
        assert(run(mid, rest) == run(step(mid, rest[0])->Ok_0, rest.drop_first()));
    }
}

/// A fault forced between the burn and the mint of the exchange leaves
/// every balance as it was, although the burn alone would have changed the
/// payer's CLICK balance.
pub proof fn law_exchange_is_atomic(
    a: PayerAccounts,
    authority: Option<Seq<u8>>,
    click_ata: Seq<u8>,
    cursor_ata: Seq<u8>,
    bal: Map<Seq<u8>, int>,
)
    requires
        payer_accounts_error(a, authority, click_ata, cursor_ata, false) is None,
        bal.contains_key(a.click_token_account@),
        bal[a.click_token_account@] >= EXCHANGE_BURN,
    ensures
        ({
            let ixs = exchange_steps(a);
            &&& run_until_fault(bal, ixs, 1) is Ok
            &&& run_until_fault(bal, ixs, 1)->Ok_0[a.click_token_account@] == bal[a.click_token_account@] - EXCHANGE_BURN
            &&& settle_with_fault(bal, ixs, 1) == bal
        }),
{
    reveal_with_fuel(run, 2);
    let ixs = exchange_steps(a);
    let first = ixs.take(1);
    assert(first.drop_first() =~= Seq::<TokenInstruction>::empty());
    assert(first[0] == ixs[0]);
    assert(step(bal, ixs[0]) is Ok);
    assert(run(bal, first) == run(step(bal, ixs[0])->Ok_0, first.drop_first()));
}

/// Setup run a second time finds everything in place: it creates nothing,
/// and the accounts that exist are those after the first run.
pub proof fn law_initialize_is_idempotent(
    a: PayerAccounts,
    authority: Option<Seq<u8>>,
    click_ata: Seq<u8>,
    cursor_ata: Seq<u8>,
)
    requires
        init_result(a, authority, click_ata, cursor_ata) is Ok,
    ensures
        ({
            let once = after_init(a, init_result(a, authority, click_ata, cursor_ata)->Ok_0);
            let plan = InitPlan { create_authority: false, create_click_account: false, create_cursor_account: false };
            &&& init_result(once, authority, click_ata, cursor_ata) == Ok::<InitPlan, ProgramError>(plan)
            &&& after_init(once, plan) == once
            &&& existing_accounts(after_init(once, plan)) == existing_accounts(once)
        }),
{
}

/// An operation on CLICK and CURSOR that is handed another token identity
/// is rejected and asks the ledger for nothing.
pub proof fn law_foreign_token_rejected(
    a: PayerAccounts,
    authority: Option<Seq<u8>>,
    click_ata: Seq<u8>,
    cursor_ata: Seq<u8>,
)
    requires
        a.click_token_mint@ != click_token_spec() || a.cursor_token_mint@ != cursor_token_spec(),
    ensures
        init_result(a, authority, click_ata, cursor_ata) is Err,
        mint_balances_result(a, authority, click_ata, cursor_ata) is Err,
        buy_cursor_result(a, authority, click_ata, cursor_ata) is Err,
{
}

/// An operation whose authority account is not the one derived from the
/// seed and salt is rejected and asks the ledger for nothing; where every
/// other account is valid, the error is `Unauthorized`.
pub proof fn law_wrong_authority_rejected(
    a: PayerAccounts,
    click_ata: Seq<u8>,
    cursor_ata: Seq<u8>,
)
    requires
        authority_for(AUTHORITY_BUMP) != Some(a.pda_authority@),
    ensures
        init_result(a, authority_for(AUTHORITY_BUMP), click_ata, cursor_ata) is Err,
        mint_balances_result(a, authority_for(AUTHORITY_BUMP), click_ata, cursor_ata) is Err,
        buy_cursor_result(a, authority_for(AUTHORITY_BUMP), click_ata, cursor_ata) is Err,
        ({
            let valid_otherwise = a.payer_is_signer && a.click_token_mint@ == click_token_spec()
                && a.cursor_token_mint@ == cursor_token_spec() && a.click_balance is Some
                && a.cursor_balance is Some && a.authority_exists && a.click_token_account@ == click_ata
                && a.cursor_token_account@ == cursor_ata;
            valid_otherwise ==> {
                &&& mint_balances_result(a, authority_for(AUTHORITY_BUMP), click_ata, cursor_ata)
                    == Err::<TokenInstruction, ProgramError>(ProgramError::Unauthorized)
                &&& buy_cursor_result(a, authority_for(AUTHORITY_BUMP), click_ata, cursor_ata)
                    == Err::<Seq<TokenInstruction>, ProgramError>(ProgramError::Unauthorized)
                &&& init_result(a, authority_for(AUTHORITY_BUMP), click_ata, cursor_ata)
                    == Err::<InitPlan, ProgramError>(ProgramError::Unauthorized)
            }
        }),
{
}

/// The general single-token mint is rejected, and asks the ledger for
/// nothing, where its authority account is not the one derived from the
/// seed and the caller's salt.
pub proof fn law_wrong_salt_authority_rejected(m: MintSendToken, bump: u8)
    requires
        authority_for(bump) != Some(m.pda_authority@),
    ensures
        mint_send_result(m, bump, authority_for(bump)) == Err::<TokenInstruction, ProgramError>(ProgramError::Unauthorized),
{
}

} // verus!
