//! What happens when a match result comes in: the schedule is brought to the
//! current day, the player's rating moves, the reward is credited and the
//! result is recorded. Also how a player withdraws what they have earned.

use vstd::prelude::*;
use crate::constants::{MAX_PLAYERS, SEC_IN_DAY, START, VICTORY};
use crate::errors::ErrorCode;
use crate::game_state::{PlayersStats, Stats};
use crate::maths::{schedule_for, QualityMultiplier, Reward};
use crate::player_state::Player;

verus! {

/// The day a moment falls on: whole days from the start of the schedule to
/// `unix_now`, rounded down, so that moments before the start fall on
/// negative days.
pub open spec fn day_index(unix_now: int) -> int {
    (unix_now - START) / (SEC_IN_DAY as int)
}

/// The tenths of the match reward that a player of the given rating keeps:
/// eight up to a rating of 100, nine up to 200, ten above.
pub open spec fn rating_multiplier(rating: int) -> int {
    if rating <= 100 {
        8
    } else if rating <= 200 {
        9
    } else {
        10
    }
}

/// By how much a placement moves the rating, before the floor at zero.
pub open spec fn rating_delta(placement: u64) -> int {
    if placement == 1 {
        10
    } else if 2 <= placement <= 5 {
        5
    } else if 6 <= placement <= 10 {
        2
    } else {
        -2
    }
}

/// The rating after a match: moved by the placement's delta and never below zero.
pub open spec fn next_rating(rating: int, placement: u64) -> int {
    if rating + rating_delta(placement) < 0 {
        0
    } else {
        rating + rating_delta(placement)
    }
}

/// The amount of the schedule that a placement earns.
pub open spec fn placement_reward(schedule: Reward, placement: u64) -> int {
    if placement == 1 {
        schedule.victory as int
    } else if 2 <= placement <= 5 {
        schedule.top_five as int
    } else if 6 <= placement <= 10 {
        schedule.top_ten as int
    } else {
        0
    }
}

/// The reward of one match: placement reward plus kill rewards, of which
/// the player keeps the tenths their rating entitles them to, rounded down.
pub open spec fn match_reward(schedule: Reward, rating: int, placement: u64, kills: u64) -> int {
    (rating_multiplier(rating) * (placement_reward(schedule, placement) + kills * schedule.kill))
        / 10
}

/// The schedule in force for a match played on `day`: the one at hand if it
/// was derived for that day, else the one derived anew.
pub open spec fn refreshed(schedule: Reward, day: i64, quality: u64, decay: u64) -> Reward {
    if day != schedule.days {
        schedule_for(day, quality, decay)
    } else {
        schedule
    }
}

/// Whether taking in a match for `player` at `unix_now` derives the
/// schedule anew: the player has a rating that can be classified, and the
/// schedule at hand is of another day.
pub open spec fn derives_schedule(schedule: Reward, player: Player, unix_now: i64) -> bool {
    &&& player.rating is Some
    &&& player.rating->Some_0 >= 0
    &&& schedule.days != day_index(unix_now as int)
}

/// The record a match leaves in the stats buffer.
pub open spec fn stat_of(player: Player, placement: u64, kills: u64, reward: int) -> Stats {
    Stats {
        reward: reward as u64,
        id: player.identity,
        placement: (placement % 256) as u8,
        kills: (kills % 256) as u8,
    }
}

/// Why a match result is refused, if it is. The reasons are tried in this
/// order: no rating; a negative rating; a new rating too large to store; a
/// balance too large to store; no free slot in the stats buffer.
pub open spec fn refusal(
    schedule: Reward,
    player: Player,
    stats: PlayersStats,
    placement: u64,
    kills: u64,
) -> Option<ErrorCode> {
    match player.rating {
        None => Some(ErrorCode::RatingUndefined),
        Some(rating) => {
            if rating < 0 {
                Some(ErrorCode::RatingOverflow)
            } else if rating + rating_delta(placement) > i64::MAX {
                Some(ErrorCode::RatingOverflow)
            } else if player.claimable + match_reward(schedule, rating as int, placement, kills)
                > u64::MAX {
                Some(ErrorCode::ArithmeticOverflow)
            } else if stats.counter >= MAX_PLAYERS {
                Some(ErrorCode::StatsOverflow)
            } else {
                None
            }
        },
    }
}

/// The profile after a match that was accepted.
pub open spec fn player_after(schedule: Reward, player: Player, placement: u64, kills: u64)
    -> Player {
    let rating: int = player.rating->Some_0 as int;
    Player {
        rating: Some(next_rating(rating, placement) as i64),
        claimable: (player.claimable + match_reward(schedule, rating, placement, kills)) as u64,
        ..player
    }
}

/// Computes the day that `unix_now` falls on.
pub fn current_day(unix_now: i64) -> (day: i64)
    ensures
        day == day_index(unix_now as int),
{
    let elapsed: i128 = unix_now as i128 - START as i128;
    let span: i128 = SEC_IN_DAY as i128;
    let day: i128 = if elapsed >= 0 {
        elapsed / span
    } else {
        -((span - 1 - elapsed) / span)
    };
    day as i64
}

/// Computes the tenths of the match reward kept at `rating`.
fn tier_of(rating: i64) -> (tenths: u128)
    requires
        rating >= 0,
    ensures
        tenths == rating_multiplier(rating as int),
{
    if rating <= 100 {
        8
    } else if rating <= 200 {
        9
    } else {
        10
    }
}

/// Computes the reward of one match, which may exceed 64 bits.
fn reward_of(schedule: &Reward, rating: i64, placement: u64, kills: u64) -> (reward: u128)
    requires
        rating >= 0,
    ensures
        reward == match_reward(*schedule, rating as int, placement, kills),
{
    let tenths: u128 = tier_of(rating);
    let placed: u128 = if placement == 1 {
        schedule.victory as u128
    } else if 2 <= placement && placement <= 5 {
        schedule.top_five as u128
    } else if 6 <= placement && placement <= 10 {
        schedule.top_ten as u128
    } else {
        0
    };
    assert(kills * schedule.kill <= 0xffff_ffff_ffff_ffff * 0xffff_ffff_ffff_ffff)
        by (nonlinear_arith)
        requires
            0 <= kills <= 0xffff_ffff_ffff_ffff,
            0 <= schedule.kill <= 0xffff_ffff_ffff_ffff,
    ;
    let earned: u128 = placed + (kills as u128) * (schedule.kill as u128);
    let whole: u128 = earned / 10;
    let rest: u128 = earned % 10;
    assert(tenths * earned == tenths * whole * 10 + tenths * rest) by (nonlinear_arith)
        requires
            earned == whole * 10 + rest,
    ;
    tenths * whole + (tenths * rest) / 10
}

/// Takes in the result of one match for `player`, who finished in place
/// `placement` with `kills` kills at the moment `unix_now`.
///
/// If `reward` was not derived for the day of `unix_now`, it is first
/// derived anew from `nft_multiplier` and `decay_multiplier`, the decay
/// curve's fixed-point value for that day; the quality multiplier must not
/// be zero then. The rating then moves with the placement, the match reward
/// is added to what the player can claim, and a record of the match is
/// appended to `players_stats`.
///
/// The result is refused for the reason `refusal` gives, and only then; a
/// refusal leaves schedule, profile and buffer exactly as they were.
pub fn calculate_reward(
    reward: &mut Reward,
    player: &mut Player,
    players_stats: &mut PlayersStats,
    nft_multiplier: &QualityMultiplier,
    placement: u64,
    kills: u64,
    unix_now: i64,
    decay_multiplier: u64,
) -> (result: Result<(), ErrorCode>)
    requires
        derives_schedule(*old(reward), *old(player), unix_now) ==> nft_multiplier.common > 0,
    ensures
        old(player).rating is None ==> result == Err::<(), ErrorCode>(ErrorCode::RatingUndefined),
        result is Ok ==> final(reward).days == day_index(unix_now as int),
        result is Ok ==> final(player).claimable == old(player).claimable + match_reward(
            *final(reward),
            old(player).rating->Some_0 as int,
            placement,
            kills,
        ),
        old(players_stats).wf() ==> final(players_stats).wf(),
        result is Ok ==> final(players_stats)@ == old(players_stats)@.push(
            stat_of(
                *old(player),
                placement,
                kills,
                final(player).claimable - old(player).claimable,
            ),
        ),
        ({
            let schedule = refreshed(
                *old(reward),
                day_index(unix_now as int) as i64,
                nft_multiplier.common,
                decay_multiplier,
            );
            match refusal(schedule, *old(player), *old(players_stats), placement, kills) {
                Some(reason) => {
                    &&& result == Err::<(), ErrorCode>(reason)
                    &&& *final(reward) == *old(reward)
                    &&& *final(player) == *old(player)
                    &&& *final(players_stats) == *old(players_stats)
                },
                None => {
                    &&& result == Ok::<(), ErrorCode>(())
                    &&& *final(reward) == schedule
                    &&& *final(player) == player_after(schedule, *old(player), placement, kills)
                    &&& final(players_stats).counter == old(players_stats).counter + 1
                    &&& final(players_stats).players@ == old(players_stats).players@.update(
                        old(players_stats).counter as int,
                        stat_of(
                            *old(player),
                            placement,
                            kills,
                            match_reward(
                                schedule,
                                old(player).rating->Some_0 as int,
                                placement,
                                kills,
                            ),
                        ),
                    )
                },
            }
        }),
{
    let rating: i64 = match player.rating {
        None => {
            return Err(ErrorCode::RatingUndefined);
        },
        Some(value) => value,
    };
    if rating < 0 {
        return Err(ErrorCode::RatingOverflow);
    }
    let day: i64 = current_day(unix_now);
    let mut schedule: Reward = *reward;
    if day != schedule.days {
        schedule.calculate_reward(day, nft_multiplier.common, decay_multiplier);
    }
    let moved: i64 = if placement == 1 {
        if rating > i64::MAX - 10 {
            return Err(ErrorCode::RatingOverflow);
        }
        rating + 10
    } else if 2 <= placement && placement <= 5 {
        if rating > i64::MAX - 5 {
            return Err(ErrorCode::RatingOverflow);
        }
        rating + 5
    } else if 6 <= placement && placement <= 10 {
        if rating > i64::MAX - 2 {
            return Err(ErrorCode::RatingOverflow);
        }
        rating + 2
    } else if rating < 2 {
        0
    } else {
        rating - 2
    };
    let earned: u128 = reward_of(&schedule, rating, placement, kills);
    if earned > (u64::MAX - player.claimable) as u128 {
        return Err(ErrorCode::ArithmeticOverflow);
    }
    let stat = Stats {
        reward: earned as u64,
        id: player.identity,
        placement: (placement % 256) as u8,
        kills: (kills % 256) as u8,
    };
    match players_stats.append(stat) {
        Err(reason) => {
            return Err(reason);
        },
        Ok(()) => {},
    }
    *reward = schedule;
    player.rating = Some(moved);
    player.claimable = player.claimable + earned as u64;
    Ok(())
}

/// Where a withdrawal stands between the calls it makes to the token ledger.
#[derive(Clone, Copy, Debug, PartialEq, Eq, Structural)]
pub enum ClaimState {
    /// The withdrawal was asked for; nothing has been sent to the token ledger.
    Requested,
    /// The ledger was asked to approve the amount.
    Approving,
    /// The ledger was asked to transfer the amount.
    Transferring,
    /// The amount was transferred and the balance reset.
    Settled,
    /// The ledger rejected a call; the balance is as it was.
    Refused,
}

/// What the caller does next for a withdrawal.
#[derive(Clone, Copy, Debug, PartialEq, Eq, Structural)]
pub enum ClaimAction {
    /// Ask the token ledger to approve `amount` for the player.
    Approve { amount: u64 },
    /// Ask the token ledger to transfer `amount` from the vault to the player.
    Transfer { amount: u64 },
    /// Nothing is left to do: the withdrawal is complete.
    Finish,
    /// Nothing is left to do: the withdrawal failed.
    Abort,
}

/// One step of a withdrawal: the profile, the state and the action that
/// follow from `state` once the token ledger has answered the last call with
/// `accepted`. The first step asks for approval of the whole balance, the
/// second for its transfer, and only an accepted transfer resets the balance.
pub open spec fn claim_step(player: Player, state: ClaimState, accepted: bool) -> (
    Player,
    ClaimState,
    ClaimAction,
) {
    match state {
        ClaimState::Requested => (
            player,
            ClaimState::Approving,
            ClaimAction::Approve { amount: player.claimable },
        ),
        ClaimState::Approving => if accepted {
            (player, ClaimState::Transferring, ClaimAction::Transfer { amount: player.claimable })
        } else {
            (player, ClaimState::Refused, ClaimAction::Abort)
        },
        ClaimState::Transferring => if accepted {
            (Player { claimable: 0, ..player }, ClaimState::Settled, ClaimAction::Finish)
        } else {
            (player, ClaimState::Refused, ClaimAction::Abort)
        },
        ClaimState::Settled => (player, ClaimState::Settled, ClaimAction::Finish),
        ClaimState::Refused => (player, ClaimState::Refused, ClaimAction::Abort),
    }
}

/// The profile after a withdrawal in which the token ledger accepted both calls.
pub open spec fn claimed(player: Player) -> Player {
    let asked = claim_step(player, ClaimState::Requested, true);
    let approved = claim_step(asked.0, asked.1, true);
    let transferred = claim_step(approved.0, approved.1, true);
    transferred.0
}

/// Advances the withdrawal of `player` by one step.
///
/// `state` is where the withdrawal stands and `accepted` says whether the
/// token ledger accepted the call made last; it is not looked at while
/// nothing has been asked. The caller performs the returned action and
/// comes back with the returned state, until the action is `Finish` or
/// `Abort`. The balance is reset when the transfer was accepted, and in no
/// other step does the profile change.
pub fn user_claim(player: &mut Player, state: ClaimState, accepted: bool) -> (next: (
    ClaimState,
    ClaimAction,
))
    ensures
        (*final(player), next.0, next.1) == claim_step(*old(player), state, accepted),
        !(state == ClaimState::Transferring && accepted) ==> *final(player) == *old(player),
{
    match state {
        ClaimState::Requested => (
            ClaimState::Approving,
            ClaimAction::Approve { amount: player.claimable },
        ),
        ClaimState::Approving => {
            if accepted {
                (ClaimState::Transferring, ClaimAction::Transfer { amount: player.claimable })
            } else {
                (ClaimState::Refused, ClaimAction::Abort)
            }
        },
        ClaimState::Transferring => {
            if accepted {
                player.claimable = 0;
                (ClaimState::Settled, ClaimAction::Finish)
            } else {
                (ClaimState::Refused, ClaimAction::Abort)
            }
        },
        ClaimState::Settled => (ClaimState::Settled, ClaimAction::Finish),
        ClaimState::Refused => (ClaimState::Refused, ClaimAction::Abort),
    }
}

/// Sets the quality multiplier to the value that holds before any player
/// statistics exist.
pub fn initialize_nft_multiplier(nft_multiplier: &mut QualityMultiplier)
    ensures
        final(nft_multiplier).common == VICTORY,
{
    nft_multiplier.common = VICTORY;
}

/// Sets up the schedule: it is derived for day zero from `nft_multiplier`
/// and `decay_multiplier`, the decay curve's fixed-point value for that day.
pub fn initialize_reward(
    reward: &mut Reward,
    nft_multiplier: &QualityMultiplier,
    decay_multiplier: u64,
)
    requires
        nft_multiplier.common > 0,
    ensures
        *final(reward) == schedule_for(0, nft_multiplier.common, decay_multiplier),
{
    reward.days = 0;
    reward.calculate_reward(0, nft_multiplier.common, decay_multiplier);
}

/// First place raises the rating by exactly ten and earns the victory
/// amount. Any place past the tenth lowers the rating by two, though never
/// below zero, and earns no placement reward. No placement leaves a rating
/// below zero.
pub proof fn lemma_placement_rules(schedule: Reward, rating: int, placement: u64)
    requires
        rating >= 0,
    ensures
        placement == 1 ==> next_rating(rating, placement) == rating + 10 && placement_reward(
            schedule,
            placement,
        ) == schedule.victory,
        placement > 10 ==> next_rating(rating, placement) == (if rating >= 2 {
            rating - 2
        } else {
            0
        }) && placement_reward(schedule, placement) == 0,
        next_rating(rating, placement) >= 0,
{
}

/// A player without a rating is refused for that reason, whatever the
/// schedule, the stats buffer, the placement and the kills are.
pub proof fn lemma_undefined_rating_refused(
    schedule: Reward,
    player: Player,
    stats: PlayersStats,
    placement: u64,
    kills: u64,
)
    requires
        player.rating is None,
    ensures
        refusal(schedule, player, stats, placement, kills) == Some(ErrorCode::RatingUndefined),
{
}

/// An accepted match adds exactly the match reward to the balance, moves
/// the rating to the next rating, which is not negative, and changes
/// nothing else of the profile.
pub proof fn lemma_accepted_match(
    schedule: Reward,
    player: Player,
    stats: PlayersStats,
    placement: u64,
    kills: u64,
)
    requires
        refusal(schedule, player, stats, placement, kills) is None,
    ensures
        player.rating is Some,
        player_after(schedule, player, placement, kills).claimable == player.claimable
            + match_reward(schedule, player.rating->Some_0 as int, placement, kills),
        player_after(schedule, player, placement, kills).claimable >= player.claimable,
        player_after(schedule, player, placement, kills).rating == Some(
            next_rating(player.rating->Some_0 as int, placement) as i64,
        ),
        player_after(schedule, player, placement, kills).rating->Some_0 >= 0,
        player_after(schedule, player, placement, kills).identity == player.identity,
        player_after(schedule, player, placement, kills).nft_counter == player.nft_counter,
{
    let rating: int = player.rating->Some_0 as int;
    lemma_match_reward_bounds(schedule, rating, placement, kills);
}

/// The match reward is never negative.
pub proof fn lemma_match_reward_bounds(schedule: Reward, rating: int, placement: u64, kills: u64)
    ensures
        match_reward(schedule, rating, placement, kills) >= 0,
{
    let earned: int = placement_reward(schedule, placement) + kills * schedule.kill;
    assert(kills * schedule.kill >= 0) by (nonlinear_arith)
        requires
            kills >= 0,
            schedule.kill >= 0,
    ;
    assert(rating_multiplier(rating) * earned >= 0) by (nonlinear_arith)
        requires
            earned >= 0,
            rating_multiplier(rating) >= 8,
    ;
}

/// The schedule is derived at most once per day: a schedule brought to a
/// day is not derived again for a match on the same day, whatever the
/// multipliers are by then.
pub proof fn lemma_refreshed_once_per_day(
    schedule: Reward,
    day: i64,
    quality: u64,
    decay: u64,
    later_quality: u64,
    later_decay: u64,
)
    ensures
        refreshed(schedule, day, quality, decay).days == day,
        refreshed(refreshed(schedule, day, quality, decay), day, later_quality, later_decay)
            == refreshed(schedule, day, quality, decay),
{
}

/// Matches of different players on one day commute: whichever is taken in
/// first brings the schedule to that day, the other finds it there, and each
/// profile ends as it would have had its match come first.
pub proof fn lemma_same_day_matches_commute(
    schedule: Reward,
    day: i64,
    quality: u64,
    decay: u64,
    player: Player,
    placement: u64,
    kills: u64,
)
    ensures
        player_after(
            refreshed(refreshed(schedule, day, quality, decay), day, quality, decay),
            player,
            placement,
            kills,
        ) == player_after(refreshed(schedule, day, quality, decay), player, placement, kills),
{
    lemma_refreshed_once_per_day(schedule, day, quality, decay, quality, decay);
}

/// A withdrawal that the token ledger accepts asks for the whole balance
/// and leaves none. A second withdrawal right after it therefore asks the
/// ledger to approve and to transfer nothing.
pub proof fn lemma_second_claim_is_empty(player: Player, accepted: bool)
    ensures
        claim_step(player, ClaimState::Requested, accepted).2 == (ClaimAction::Approve {
            amount: player.claimable,
        }),
        claim_step(player, ClaimState::Approving, true).2 == (ClaimAction::Transfer {
            amount: player.claimable,
        }),
        claimed(player) == (Player { claimable: 0, ..player }),
        claim_step(claimed(player), ClaimState::Requested, accepted).2 == (ClaimAction::Approve {
            amount: 0,
        }),
        claim_step(claimed(player), ClaimState::Approving, true).2 == (ClaimAction::Transfer {
            amount: 0,
        }),
        claimed(claimed(player)) == claimed(player),
{
}

/// A withdrawal that the token ledger rejects, at either call, leaves the
/// profile as it was.
pub proof fn lemma_rejected_claim_changes_nothing(player: Player, state: ClaimState)
    ensures
        claim_step(player, state, false).0 == player,
{
}

} // verus!
