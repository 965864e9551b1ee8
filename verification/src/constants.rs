//! Fixed parameters of the reward engine.

use vstd::prelude::*;

verus! {

/// Number of stat records one match session can hold.
pub const MAX_PLAYERS: usize = 32;

/// Number of match summaries one history ledger can hold before it is sealed.
pub const MAX_GAMES: usize = 7000;

/// Reference price all reward amounts are derived from, in base units.
pub const NFT_PRICE: u64 = 150000000000;

/// Quality multiplier in force before any player statistics exist.
pub const VICTORY: u64 = 16800000000;

/// Fee charged when a player profile is opened, in the ledger's native unit.
pub const FEE_LAMPORTS: u64 = 100000000;

/// Unix time at which day zero of the reward schedule starts.
pub const START: i64 = 1654797600;

/// Length of one schedule day in seconds.
pub const SEC_IN_DAY: i64 = 86400;

/// Seed of the program-derived address that owns the token vault.
pub const VAULT_PDA_SEED: [u8; 5] = [118, 97, 117, 108, 116];

} // verus!
