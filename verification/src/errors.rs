//! Typed reasons for which an operation of the engine is refused.

use vstd::prelude::*;

verus! {

/// Why an operation was refused. Every refusal leaves the state it was given untouched.
#[derive(Clone, Copy, Debug, PartialEq, Eq, Structural)]
pub enum ErrorCode {
    /// The player's rating has not been established yet.
    RatingUndefined,
    /// The player's rating lies outside the range that can be classified or stored.
    RatingOverflow,
    /// A match session was declared with more players than a stats buffer holds.
    PlayersOverflow,
    /// A stat record was appended to a stats buffer that is already full.
    StatsOverflow,
    /// A match summary was appended to a history ledger that is already full.
    HistoryOverflow,
    /// A balance or counter would leave the unsigned 64-bit range.
    ArithmeticOverflow,
}

impl ErrorCode {
    /// The text shown to a caller for each reason.
    pub open spec fn message_spec(self) -> Seq<char> {
        match self {
            ErrorCode::RatingUndefined => "Player's rating is undefined"@,
            ErrorCode::RatingOverflow => "The player's rating overflows"@,
            ErrorCode::PlayersOverflow => "Too many players"@,
            ErrorCode::StatsOverflow => "The match statistics are full"@,
            ErrorCode::HistoryOverflow => "The match history is full"@,
            ErrorCode::ArithmeticOverflow => "A balance or counter overflows"@,
        }
    }

    /// Returns the text shown to a caller for this reason.
    pub fn message(&self) -> (text: &'static str)
        ensures
            text@ == self.message_spec(),
    {
        match self {
            ErrorCode::RatingUndefined => "Player's rating is undefined",
            ErrorCode::RatingOverflow => "The player's rating overflows",
            ErrorCode::PlayersOverflow => "Too many players",
            ErrorCode::StatsOverflow => "The match statistics are full",
            ErrorCode::HistoryOverflow => "The match history is full",
            ErrorCode::ArithmeticOverflow => "A balance or counter overflows",
        }
    }
}

} // verus!
