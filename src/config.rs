//! The fixed configuration of the deployed engine: the program id, the two
//! token identities, the authority seed and salt, and the fixed amounts.

use vstd::prelude::*;
use crate::address::Address;

verus! {

/// The smallest-denomination factor: one whole unit of a token.
pub const BASE_UNIT: u64 = 1_000_000_000;

/// The salt under which the authority is derived in the current operations.
pub const AUTHORITY_BUMP: u8 = 254;

/// CLICK taken from the payer by one exchange.
pub const EXCHANGE_BURN: u64 = 50_000_000_000;

/// CURSOR given to the payer by one exchange.
pub const EXCHANGE_MINT: u64 = 1_000_000_000;

/// The seed from which the authority is derived.
pub open spec fn authority_seed() -> Seq<u8> {
    seq![109u8, 105u8, 110u8, 116u8]
}

/// The seed `"mint"` as bytes.
pub fn authority_seed_bytes() -> (r: [u8; 4])
    ensures
        r@ == authority_seed(),
{
    let r: [u8; 4] = [109, 105, 110, 116];
    assert(r@ =~= authority_seed());
    r
}

/// The id of this program.
pub open spec fn program_id_spec() -> Seq<u8> {
    seq![
        100u8, 87u8, 141u8, 196u8, 66u8, 16u8, 32u8, 144u8, 82u8, 134u8, 179u8, 137u8, 126u8, 170u8, 113u8, 189u8,
        24u8, 143u8, 252u8, 213u8, 179u8, 164u8, 125u8, 131u8, 202u8, 6u8, 177u8, 231u8, 109u8, 25u8, 26u8, 28u8,
    ]
}

/// The CLICK token identity.
pub open spec fn click_token_spec() -> Seq<u8> {
    seq![
        164u8, 253u8, 93u8, 132u8, 185u8, 63u8, 146u8, 191u8, 31u8, 247u8, 33u8, 198u8, 47u8, 93u8, 141u8, 181u8,
        134u8, 102u8, 35u8, 71u8, 229u8, 11u8, 39u8, 57u8, 126u8, 220u8, 38u8, 184u8, 214u8, 162u8, 96u8, 245u8,
    ]
}

/// The CURSOR token identity.
pub open spec fn cursor_token_spec() -> Seq<u8> {
    seq![
        126u8, 47u8, 176u8, 127u8, 54u8, 168u8, 119u8, 166u8, 152u8, 160u8, 157u8, 225u8, 89u8, 156u8, 220u8, 220u8,
        213u8, 205u8, 19u8, 195u8, 35u8, 109u8, 194u8, 92u8, 130u8, 222u8, 218u8, 55u8, 74u8, 191u8, 161u8, 220u8,
    ]
}

/// The id of this program (`7khCm9h5cWdU1KBiMztMvzFiXNCum1iwGUcRVFwKhoP9`).
pub fn program_id() -> (r: Address)
    ensures
        r@ == program_id_spec(),
{
    let r = Address {
        bytes: [
            100, 87, 141, 196, 66, 16, 32, 144, 82, 134, 179, 137, 126, 170, 113, 189,
            24, 143, 252, 213, 179, 164, 125, 131, 202, 6, 177, 231, 109, 25, 26, 28,
        ],
    };
    assert(r@ =~= program_id_spec());
    r
}

/// The CLICK token identity (`C73wX9ATj7K8K62dFqWEEG14wfupnZqUxZRTXVdEib7S`).
pub fn click_token() -> (r: Address)
    ensures
        r@ == click_token_spec(),
{
    let r = Address {
        bytes: [
            164, 253, 93, 132, 185, 63, 146, 191, 31, 247, 33, 198, 47, 93, 141, 181,
            134, 102, 35, 71, 229, 11, 39, 57, 126, 220, 38, 184, 214, 162, 96, 245,
        ],
    };
    assert(r@ =~= click_token_spec());
    r
}

/// The CURSOR token identity (`9VaYi71F955j88tCc82FAks5iJkRf7YjEyp34MiwU34o`).
pub fn cursor_token() -> (r: Address)
    ensures
        r@ == cursor_token_spec(),
{
    let r = Address {
        bytes: [
            126, 47, 176, 127, 54, 168, 119, 166, 152, 160, 157, 225, 89, 156, 220, 220,
            213, 205, 19, 195, 35, 109, 194, 92, 130, 222, 218, 55, 74, 191, 161, 220,
        ],
    };
    assert(r@ =~= cursor_token_spec());
    r
}

/// The entry points of the engine.
#[derive(Clone, Copy, Debug, PartialEq, Eq, Structural)]
pub enum Operation {
    MintAndSendOneToken,
    InitializeMintV2,
    MintBasedOnBalances,
    BuyCursor,
}

/// The two deployments of the engine: the full one, and the legacy one
/// that offers the general single-token mint alone.
#[derive(Clone, Copy, Debug, PartialEq, Eq, Structural)]
pub enum Deployment {
    Full,
    Legacy,
}

/// Whether `deployment` offers `op`.
pub fn enables(deployment: Deployment, op: Operation) -> (r: bool)
    ensures
        r == (deployment == Deployment::Full || op == Operation::MintAndSendOneToken),
{
    match deployment {
        Deployment::Full => true,
        Deployment::Legacy => match op {
            Operation::MintAndSendOneToken => true,
            _ => false,
        },
    }
}

} // verus!
