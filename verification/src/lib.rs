//! Reward engine and player progression ledger for a competitive game.
//!
//! The crate turns match results into rewards: a time-decayed reward schedule,
//! the reward of one match from placement, kills and rating tier, the rating
//! walk of a player, the balance a player can claim, and the bounded records of
//! match statistics and match history. All of it is plain state and integer
//! arithmetic; clocks, token transfers and account storage belong to the caller.

pub mod constants;
pub mod errors;
pub mod game_instructions;
pub mod game_state;
pub mod maths;
pub mod player_state;
pub mod token_state;

pub use crate::errors::ErrorCode;
pub use crate::game_instructions::{
    calculate_reward, current_day, initialize_nft_multiplier, initialize_reward, user_claim,
    ClaimAction, ClaimState,
};
pub use crate::game_state::{end_game, start_game, Game, GameStart, History, PlayersStats, Stats};
pub use crate::maths::{QualityMultiplier, Reward};
pub use crate::player_state::{create_player, update_player, Identity, Player};
pub use crate::token_state::{signer_seeds, user_sell, vault_authority, SellPlan, VaultAuthority};
