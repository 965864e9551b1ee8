//! The profile kept for each player: who they are, their rating, what they
//! can claim and how many reward-multiplying items they own.

use vstd::prelude::*;
use crate::errors::ErrorCode;

verus! {

/// The key that names a player: thirty-two bytes the engine copies and
/// compares but never interprets.
#[derive(Clone, Copy, Debug, PartialEq, Eq, Hash)]
pub struct Identity {
    pub bytes: [u8; 32],
}

impl Identity {
    /// The key as a sequence of bytes.
    pub open spec fn view(&self) -> Seq<u8> {
        self.bytes@
    }

    /// Whether every byte of the key is zero.
    pub open spec fn is_zero(self) -> bool {
        forall|i: int| 0 <= i < 32 ==> self.bytes[i] == 0
    }
}

impl Default for Identity {
    /// The key made of zero bytes, which marks an unused record.
    fn default() -> (identity: Identity)
        ensures
            identity.is_zero(),
    {
        Identity { bytes: [0u8; 32] }
    }
}

/// The state of one player.
#[derive(Clone, Copy, Debug, PartialEq, Eq)]
pub struct Player {
    /// The player's key; fixed when the profile is created.
    pub identity: Identity,
    /// The rating, or `None` while it has not been established.
    pub rating: Option<i64>,
    /// Rewards earned and not yet withdrawn, in base units.
    pub claimable: u64,
    /// Number of reward-multiplying items the player owns.
    pub nft_counter: u64,
}

/// Opens the profile of `identity`: nothing to claim, one item owned, and
/// the given rating, or a rating of zero where none is given.
pub fn create_player(identity: Identity, rating: Option<i64>) -> (player: Player)
    ensures
        player == (Player {
            identity,
            rating: Some(
                match rating {
                    Some(value) => value,
                    None => 0,
                },
            ),
            claimable: 0,
            nft_counter: 1,
        }),
{
    let established: i64 = match rating {
        Some(value) => value,
        None => 0,
    };
    Player { identity, rating: Some(established), claimable: 0, nft_counter: 1 }
}

/// Records that the player acquired one more item.
///
/// Fails with `ArithmeticOverflow`, leaving the profile as it was, when the
/// counter already holds the largest value it can.
pub fn update_player(player: &mut Player) -> (result: Result<(), ErrorCode>)
    ensures
        old(player).nft_counter < u64::MAX ==> result == Ok::<(), ErrorCode>(()) && *final(player)
            == (Player { nft_counter: (old(player).nft_counter + 1) as u64, ..*old(player) }),
        old(player).nft_counter == u64::MAX ==> result == Err::<(), ErrorCode>(
            ErrorCode::ArithmeticOverflow,
        ) && *final(player) == *old(player),
{
    if player.nft_counter == u64::MAX {
        return Err(ErrorCode::ArithmeticOverflow);
    }
    player.nft_counter = player.nft_counter + 1;
    Ok(())
}

} // verus!
