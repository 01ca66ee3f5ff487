//! Account addresses and the two derivations that the engine relies on: the
//! program-derived authority and the associated holding account.

use vstd::prelude::*;

verus! {

/// A 32-byte account address.
#[derive(Clone, Copy, Debug, PartialEq, Eq)]
pub struct Address {
    pub bytes: [u8; 32],
}

impl View for Address {
    type V = Seq<u8>;

    open spec fn view(&self) -> Seq<u8> {
        self.bytes@
    }
}

/// The view of an optional address.
pub open spec fn opt_view(a: Option<Address>) -> Option<Seq<u8>> {
    match a {
        Some(x) => Some(x@),
        None => None,
    }
}

/// Compares two addresses byte by byte.
pub fn same_address(a: &Address, b: &Address) -> (r: bool)
    ensures
        r == (a@ == b@),
{
    let mut i: usize = 0;
    while i < 32
        invariant
            i <= 32,
            forall|j: int| 0 <= j < i ==> a.bytes@[j] == b.bytes@[j],
        decreases 32 - i,
    {
        if a.bytes[i] != b.bytes[i] {
            return false;
        }
        i = i + 1;
    }
    assert(a@ =~= b@);
    true
}

/// The address derived for `program` from the seeds `[seed, [bump]]`, or
/// `None` where those seeds give no valid program address.
pub uninterp spec fn program_address_of(seed: Seq<u8>, bump: u8, program: Seq<u8>) -> Option<Seq<u8>>;

/// The associated holding account of `owner` for the token identity `mint`.
pub uninterp spec fn associated_address_of(owner: Seq<u8>, mint: Seq<u8>) -> Seq<u8>;

/// Relies on `solana_program::pubkey::Pubkey::create_program_address`: a
/// hash of the seeds and the program id, rejected where it lies on the
/// curve or a seed is too long; it depends on its arguments alone.
#[verifier::external_body]
pub(crate) fn create_program_address(seed: &[u8], bump: u8, program: &Address) -> (r: Option<Address>)
    ensures
        opt_view(r) == program_address_of(seed@, bump, program@),
{
    let program_id = solana_program::pubkey::Pubkey::new_from_array(program.bytes);
    match solana_program::pubkey::Pubkey::create_program_address(&[seed, &[bump]], &program_id) {
        Ok(key) => Some(Address { bytes: key.to_bytes() }),
        Err(_) => None,
    }
}

/// Relies on `anchor_spl::associated_token::get_associated_token_address`:
/// the holding account derived from the owner, the token program and the
/// token identity; it depends on its arguments alone. It would panic only
/// where no salt gives an address off the curve, which the derivation's
/// documentation calls statistically improbable.
#[verifier::external_body]
pub(crate) fn associated_token_address(owner: &Address, mint: &Address) -> (r: Address)
    ensures
        r@ == associated_address_of(owner@, mint@),
{
    let owner_key = solana_program::pubkey::Pubkey::new_from_array(owner.bytes);
    let mint_key = solana_program::pubkey::Pubkey::new_from_array(mint.bytes);
    let key = anchor_spl::associated_token::get_associated_token_address(&owner_key, &mint_key);
    Address { bytes: key.to_bytes() }
}

} // verus!
