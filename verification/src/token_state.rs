//! What the engine settles before it turns to the token ledger: the
//! program-derived address that owns the vault, the seeds it signs with, and
//! how much of a sale is burnt.

use vstd::prelude::*;
use vstd::slice::slice_to_vec;
use anchor_lang::prelude::Pubkey;
use crate::constants::VAULT_PDA_SEED;
use crate::player_state::Identity;

verus! {

/// The program-derived address that `Pubkey::try_find_program_address`
/// finds for the single seed `seed` under the program `program_id`, with its
/// bump seed; `None` where it finds none.
pub uninterp spec fn program_address(seed: Seq<u8>, program_id: Seq<u8>) -> Option<(Seq<u8>, u8)>;

/// Calls `Pubkey::try_find_program_address` with the one seed `seed` and the
/// program key `program_id`.
///
/// The address and bump seed are not proved here: the contract only gives
/// them the name `program_address`, on the grounds that the search hashes
/// its arguments and nothing else.
#[verifier::external_body]
fn find_program_address(seed: &[u8], program_id: &Identity) -> (found: Option<(Identity, u8)>)
    ensures
        match found {
            Some((address, bump)) => program_address(seed@, program_id@) == Some((address@, bump)),
            None => program_address(seed@, program_id@) is None,
        },
{
    let program = Pubkey::new_from_array(program_id.bytes);
    match Pubkey::try_find_program_address(&[seed], &program) {
        Some((address, bump)) => Some((Identity { bytes: address.to_bytes() }, bump)),
        None => None,
    }
}

/// The authority over the token vault: an address derived from the program's
/// key, for which only the program can sign, and the bump seed that
/// completes its signer seeds.
#[derive(Clone, Copy, Debug, PartialEq, Eq)]
pub struct VaultAuthority {
    pub address: Identity,
    pub bump: u8,
}

/// Derives the vault authority of the program `program_id` from the vault seed.
///
/// Returns `None` exactly when no address can be derived from that seed.
pub fn vault_authority(program_id: &Identity) -> (authority: Option<VaultAuthority>)
    ensures
        match authority {
            Some(found) => program_address(VAULT_PDA_SEED@, program_id@) == Some(
                (found.address@, found.bump),
            ),
            None => program_address(VAULT_PDA_SEED@, program_id@) is None,
        },
{
    let seed: [u8; 5] = VAULT_PDA_SEED;
    match find_program_address(seed.as_slice(), program_id) {
        Some((address, bump)) => Some(VaultAuthority { address, bump }),
        None => None,
    }
}

/// The seeds the vault authority signs with: the vault seed, then the bump seed.
pub fn signer_seeds(bump: u8) -> (seeds: Vec<Vec<u8>>)
    ensures
        seeds@.len() == 2,
        seeds@[0]@ == VAULT_PDA_SEED@,
        seeds@[1]@ == seq![bump],
{
    let seed: [u8; 5] = VAULT_PDA_SEED;
    let first: Vec<u8> = slice_to_vec(seed.as_slice());
    let mut second: Vec<u8> = Vec::new();
    second.push(bump);
    let mut seeds: Vec<Vec<u8>> = Vec::new();
    seeds.push(first);
    seeds.push(second);
    seeds
}

/// The two token movements of a sale, in the order they are made.
#[derive(Clone, Copy, Debug, PartialEq, Eq, Structural)]
pub struct SellPlan {
    /// Tokens moved from the player to the vault.
    pub transfer: u64,
    /// Tokens then burnt from the vault.
    pub burn: u64,
}

/// Plans the sale of `amount` tokens back to the vault: all of them are
/// transferred, and half of them, rounded down, are burnt.
pub fn user_sell(amount: u64) -> (plan: SellPlan)
    ensures
        plan.transfer == amount,
        plan.burn == amount / 2,
{
    SellPlan { transfer: amount, burn: amount / 2 }
}

} // verus!
