//! Bounded records of play: the statistics of one match session and the
//! ledger of match summaries of one epoch.

use vstd::prelude::*;
use crate::constants::{MAX_GAMES, MAX_PLAYERS};
use crate::errors::ErrorCode;
use crate::player_state::Identity;

verus! {

/// What one player did in one match and what it earned them.
#[derive(Clone, Copy, Debug, PartialEq, Eq)]
pub struct Stats {
    /// Reward credited for the match, in base units.
    pub reward: u64,
    /// Key of the player.
    pub id: Identity,
    /// Final ranking, kept to its low eight bits.
    pub placement: u8,
    /// Number of kills, kept to its low eight bits.
    pub kills: u8,
}

impl Stats {
    /// Whether this is the record that fills an unused slot: all zero.
    pub open spec fn is_blank(self) -> bool {
        &&& self.reward == 0
        &&& self.id.is_zero()
        &&& self.placement == 0
        &&& self.kills == 0
    }
}

impl Default for Stats {
    /// The record that fills an unused slot.
    fn default() -> (stat: Stats)
        ensures
            stat.is_blank(),
    {
        Stats { reward: 0, id: Identity::default(), placement: 0, kills: 0 }
    }
}

/// The stat records of one match session: a fixed array of slots, filled in
/// order of arrival, and the index of the next slot to fill.
#[derive(Clone, Copy, Debug, PartialEq, Eq)]
pub struct PlayersStats {
    pub players: [Stats; MAX_PLAYERS],
    pub counter: u64,
}

impl PlayersStats {
    /// The counter does not point past the last slot.
    pub open spec fn wf(&self) -> bool {
        self.counter <= MAX_PLAYERS
    }

    /// The records appended so far, oldest first.
    pub open spec fn view(&self) -> Seq<Stats> {
        if self.counter <= MAX_PLAYERS {
            self.players@.take(self.counter as int)
        } else {
            self.players@
        }
    }

    /// Whether no further record can be appended.
    pub open spec fn is_full_spec(&self) -> bool {
        self.counter >= MAX_PLAYERS
    }

    /// A buffer with no record in it: every slot blank, the counter at zero.
    pub fn new() -> (buffer: PlayersStats)
        ensures
            buffer.counter == 0,
            buffer.wf(),
            buffer@ == Seq::<Stats>::empty(),
            forall|i: int| 0 <= i < MAX_PLAYERS ==> (#[trigger] buffer.players[i]).is_blank(),
    {
        PlayersStats { players: [Stats::default(); MAX_PLAYERS], counter: 0 }
    }

    /// Opens the buffer of a session declared with `players` participants.
    ///
    /// Fails with `PlayersOverflow` exactly when more players are declared
    /// than the buffer has slots.
    pub fn for_session(players: u64) -> (result: Result<PlayersStats, ErrorCode>)
        ensures
            players <= MAX_PLAYERS ==> result is Ok && result->Ok_0.counter == 0 && result->Ok_0@
                == Seq::<Stats>::empty() && (forall|i: int|
                0 <= i < MAX_PLAYERS ==> (#[trigger] result->Ok_0.players[i]).is_blank()),
            players > MAX_PLAYERS ==> result == Err::<PlayersStats, ErrorCode>(
                ErrorCode::PlayersOverflow,
            ),
    {
        if players > MAX_PLAYERS as u64 {
            return Err(ErrorCode::PlayersOverflow);
        }
        Ok(PlayersStats::new())
    }

    /// The slot index that `counter` names.
    pub fn index_of(counter: u64) -> (index: usize)
        requires
            counter <= usize::MAX,
        ensures
            index == counter,
    {
        counter as usize
    }

    /// Whether no further record can be appended.
    pub fn is_full(&self) -> (full: bool)
        ensures
            full == self.is_full_spec(),
    {
        self.counter >= MAX_PLAYERS as u64
    }

    /// Appends `stat` in the next free slot.
    ///
    /// Fails with `StatsOverflow` exactly when the buffer is full, and then
    /// leaves every slot and the counter as they were: a full buffer never
    /// wraps around to overwrite its oldest record.
    pub fn append(&mut self, stat: Stats) -> (result: Result<(), ErrorCode>)
        ensures
            !old(self).is_full_spec() ==> {
                &&& result == Ok::<(), ErrorCode>(())
                &&& final(self).counter == old(self).counter + 1
                &&& final(self).players@ == old(self).players@.update(
                    old(self).counter as int,
                    stat,
                )
                &&& final(self)@ == old(self)@.push(stat)
                &&& final(self).wf()
            },
            old(self).is_full_spec() ==> {
                &&& result == Err::<(), ErrorCode>(ErrorCode::StatsOverflow)
                &&& *final(self) == *old(self)
            },
    {
        if self.counter >= MAX_PLAYERS as u64 {
            return Err(ErrorCode::StatsOverflow);
        }
        let index: usize = PlayersStats::index_of(self.counter);
        self.players[index] = stat;
        self.counter = self.counter + 1;
        Ok(())
    }

    /// The record in slot `index`, if one has been appended there.
    pub fn get(&self, index: u64) -> (stat: Option<Stats>)
        ensures
            stat == (if index < self.counter && index < MAX_PLAYERS {
                Some(self.players[index as int])
            } else {
                None
            }),
            self.wf() && index < self.counter ==> stat == Some(self@[index as int]),
    {
        if index < self.counter && index < MAX_PLAYERS as u64 {
            Some(self.players[PlayersStats::index_of(index)])
        } else {
            None
        }
    }
}

/// The summary of one finished match: which match, how long it took, and
/// the slots of its stats buffer as they stood when it ended.
#[derive(Clone, Copy, Debug, PartialEq, Eq)]
pub struct Game {
    pub identifier: u64,
    pub duration: u64,
    pub player_stats: [Stats; MAX_PLAYERS],
}

/// The moment a match started, as Unix time.
#[derive(Clone, Copy, Debug, PartialEq, Eq, Structural)]
pub struct GameStart {
    pub timestamp: i64,
}

/// The match summaries of one epoch, oldest first. Once it holds as many as
/// an epoch allows it accepts no more; the next epoch starts a new ledger.
#[derive(Debug, PartialEq, Eq)]
pub struct History {
    pub games: Vec<Game>,
}

impl History {
    /// The ledger holds no more summaries than an epoch allows.
    pub open spec fn wf(&self) -> bool {
        self.games@.len() <= MAX_GAMES
    }

    /// The summaries recorded so far, oldest first.
    pub open spec fn view(&self) -> Seq<Game> {
        self.games@
    }

    /// Whether the ledger accepts no further summary.
    pub open spec fn is_sealed_spec(&self) -> bool {
        self.games@.len() >= MAX_GAMES
    }

    /// A ledger with no summary in it.
    pub fn new() -> (history: History)
        ensures
            history@ == Seq::<Game>::empty(),
            history.wf(),
    {
        History { games: Vec::new() }
    }

    /// The index at which the next summary will be written.
    pub fn counter(&self) -> (count: u64)
        ensures
            count == self@.len(),
    {
        self.games.len() as u64
    }

    /// Whether the ledger accepts no further summary.
    pub fn is_sealed(&self) -> (sealed: bool)
        ensures
            sealed == self.is_sealed_spec(),
    {
        self.games.len() >= MAX_GAMES
    }

    /// The summary at `index`, if one has been recorded there.
    pub fn get(&self, index: usize) -> (game: Option<Game>)
        ensures
            index < self@.len() ==> game == Some(self@[index as int]),
            index >= self@.len() ==> game is None,
    {
        if index < self.games.len() {
            Some(self.games[index])
        } else {
            None
        }
    }

    /// Records the summary of match `match_id`, which lasted `duration`
    /// seconds, with the slots of `buffer` as they stand.
    ///
    /// Fails with `HistoryOverflow` exactly when the ledger is sealed, and
    /// then leaves every summary in it as it was.
    pub fn seal(&mut self, buffer: &PlayersStats, match_id: u64, duration: u64) -> (result: Result<
        (),
        ErrorCode,
    >)
        ensures
            !old(self).is_sealed_spec() ==> {
                &&& result == Ok::<(), ErrorCode>(())
                &&& final(self)@ == old(self)@.push(
                    Game { identifier: match_id, duration, player_stats: buffer.players },
                )
                &&& final(self).wf()
            },
            old(self).is_sealed_spec() ==> {
                &&& result == Err::<(), ErrorCode>(ErrorCode::HistoryOverflow)
                &&& *final(self) == *old(self)
            },
    {
        if self.games.len() >= MAX_GAMES {
            return Err(ErrorCode::HistoryOverflow);
        }
        self.games.push(Game { identifier: match_id, duration, player_stats: buffer.players });
        Ok(())
    }
}

/// The seconds from `started` to `ended`, as the unsigned 64-bit number with
/// the same low bits as their difference.
pub open spec fn elapsed_seconds(started: int, ended: int) -> int {
    (ended - started) % 0x1_0000_0000_0000_0000
}

/// Records the moment a match starts.
pub fn start_game(game: &mut GameStart, unix_now: i64)
    ensures
        final(game).timestamp == unix_now,
{
    game.timestamp = unix_now;
}

/// Ends a match at `unix_now`: its summary, with the time elapsed since
/// `game` started, goes into `history`.
///
/// Fails with `HistoryOverflow` exactly when the ledger is sealed, and then
/// leaves every summary in it as it was.
pub fn end_game(
    history: &mut History,
    game: &GameStart,
    players_stats: &PlayersStats,
    identifier: u64,
    unix_now: i64,
) -> (result: Result<(), ErrorCode>)
    ensures
        !old(history).is_sealed_spec() ==> {
            &&& result == Ok::<(), ErrorCode>(())
            &&& final(history)@ == old(history)@.push(
                Game {
                    identifier,
                    duration: elapsed_seconds(game.timestamp as int, unix_now as int) as u64,
                    player_stats: players_stats.players,
                },
            )
        },
        old(history).is_sealed_spec() ==> {
            &&& result == Err::<(), ErrorCode>(ErrorCode::HistoryOverflow)
            &&& *final(history) == *old(history)
        },
{
    let difference: i128 = unix_now as i128 - game.timestamp as i128;
    let duration: u64 = if difference >= 0 {
        difference as u64
    } else {
        (difference + 0x1_0000_0000_0000_0000) as u64
    };
    history.seal(players_stats, identifier, duration)
}

} // verus!
