//! The accounts that each operation names, held as plain values, and the
//! instructions and errors that the operations produce.

use vstd::prelude::*;
use crate::address::Address;

verus! {

/// Why an operation was rejected.
#[derive(Clone, Copy, Debug, PartialEq, Eq, Structural)]
pub enum ProgramError {
    /// A token identity or holding account is not the one its role demands.
    IdentityMismatch,
    /// A required signature is missing, or the authority is not the derived one.
    Unauthorized,
    /// A burn asks for more than the holding account holds.
    InsufficientBalance,
    /// An account that the operation reads has not been created yet.
    NotInitialized,
    /// An amount does not fit in 64 bits.
    Overflow,
}

/// The authority marker: an empty record, owned by the program, whose
/// address is derived from the authority seed and salt.
#[derive(Clone, Copy, Debug, PartialEq, Eq)]
pub struct PDAAuthority {}

/// One instruction to the token ledger.
#[derive(Clone, Copy, Debug, PartialEq, Eq)]
pub enum TokenInstruction {
    /// Issue `amount` units of `mint` into `to`, signed by the program as
    /// `authority`, proved by the authority seed and the salt `bump`.
    MintTo { mint: Address, to: Address, authority: Address, bump: u8, amount: u64 },
    /// Destroy `amount` units of `mint` held in `from`, signed by its `owner`.
    Burn { mint: Address, from: Address, owner: Address, amount: u64 },
}

/// The accounts of the general single-token mint.
#[derive(Clone, Copy, Debug, PartialEq, Eq)]
pub struct MintSendToken {
    /// The token identity to mint; its mint authority must be the program's.
    pub token_to_mint: Address,
    /// Who pays for the operation.
    pub user_minting: Address,
    pub user_minting_is_signer: bool,
    /// The holding account that receives the new unit.
    pub user_receiving: Address,
    /// The program-derived authority.
    pub pda_authority: Address,
}

/// The accounts that the CLICK and CURSOR operations name: the payer, the
/// two token identities, the payer's two holding accounts with their
/// balances (`None` where the account does not exist yet), and the
/// authority marker.
#[derive(Clone, Copy, Debug, PartialEq, Eq)]
pub struct PayerAccounts {
    pub payer: Address,
    pub payer_is_signer: bool,
    pub click_token_mint: Address,
    pub cursor_token_mint: Address,
    pub click_token_account: Address,
    pub click_balance: Option<u64>,
    pub cursor_token_account: Address,
    pub cursor_balance: Option<u64>,
    pub pda_authority: Address,
    pub authority_exists: bool,
}

/// The accounts of the setup operation.
#[derive(Clone, Copy, Debug, PartialEq, Eq)]
pub struct InitMint2 {
    pub accounts: PayerAccounts,
}

/// The accounts of the mint-by-balance operation.
#[derive(Clone, Copy, Debug, PartialEq, Eq)]
pub struct MintBalances {
    pub accounts: PayerAccounts,
}

/// The accounts of the exchange operation.
#[derive(Clone, Copy, Debug, PartialEq, Eq)]
pub struct BuyCursor {
    pub accounts: PayerAccounts,
}

/// What the setup operation creates, each only where it is absent.
#[derive(Clone, Copy, Debug, PartialEq, Eq, Structural)]
pub struct InitPlan {
    pub create_authority: bool,
    pub create_click_account: bool,
    pub create_cursor_account: bool,
}

} // verus!
