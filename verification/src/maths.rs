//! The reward schedule: four amounts paid per match, derived from the
//! reference price, the quality multiplier and the decay multiplier of a day.

use vstd::prelude::*;
use crate::constants::NFT_PRICE;

verus! {

/// Amounts paid for one match, in fixed-point base units, and the day they were derived for.
#[derive(Clone, Copy, Debug, PartialEq, Eq, Structural)]
pub struct Reward {
    /// Paid for first place.
    pub victory: u64,
    /// Paid for places two to five.
    pub top_five: u64,
    /// Paid for places six to ten.
    pub top_ten: u64,
    /// Paid for each kill.
    pub kill: u64,
    /// Day index, counted from the start of the schedule, of the last derivation.
    pub days: i64,
}

/// Scalar that divides every reward amount; only the common tier exists.
#[derive(Clone, Copy, Debug, PartialEq, Eq, Structural)]
pub struct QualityMultiplier {
    pub common: u64,
}

/// `value`, held to the largest amount a schedule field can store.
pub open spec fn saturated(value: int) -> int {
    if value > u64::MAX {
        u64::MAX as int
    } else {
        value
    }
}

/// The amount of one reward tier: the share `share_num / share_den` of the
/// reference price, divided by `quality` and scaled by `decay`, rounded down
/// once at the end and held to 64 bits.
pub open spec fn tier_amount(share_num: int, share_den: int, quality: int, decay: int) -> int {
    saturated((share_num * NFT_PRICE * decay) / (share_den * quality))
}

/// The schedule of day `day` under quality multiplier `quality` and decay
/// multiplier `decay`: the whole price for a victory, a quarter of it for the
/// top five, a tenth for the top ten and seven hundred-and-fiftieths per kill.
pub open spec fn schedule_for(day: i64, quality: u64, decay: u64) -> Reward {
    Reward {
        victory: tier_amount(1, 1, quality as int, decay as int) as u64,
        top_five: tier_amount(1, 4, quality as int, decay as int) as u64,
        top_ten: tier_amount(1, 10, quality as int, decay as int) as u64,
        kill: tier_amount(7, 150, quality as int, decay as int) as u64,
        days: day,
    }
}

/// Divides rounding down and holds the quotient to 64 bits.
fn scaled(numerator: u128, denominator: u128) -> (amount: u64)
    requires
        denominator > 0,
    ensures
        amount == saturated(numerator as int / denominator as int),
{
    let quotient: u128 = numerator / denominator;
    if quotient > u64::MAX as u128 {
        u64::MAX
    } else {
        quotient as u64
    }
}

impl Reward {
    /// The schedule this one becomes when it is derived anew: it depends on the
    /// day and the two multipliers only, never on the amounts held before.
    pub open spec fn recomputed(self, day: i64, quality: u64, decay: u64) -> Reward {
        schedule_for(day, quality, decay)
    }

    /// Derives all four amounts anew for `current_day` and records that day.
    ///
    /// `decay_multiplier` is the decay curve's value for `current_day` as a
    /// fixed-point number. `nft_multiplier` is the quality multiplier and must
    /// not be zero, since every amount is divided by it.
    pub fn calculate_reward(&mut self, current_day: i64, nft_multiplier: u64, decay_multiplier: u64)
        requires
            nft_multiplier > 0,
        ensures
            *final(self) == old(self).recomputed(current_day, nft_multiplier, decay_multiplier),
    {
        let decay: u128 = decay_multiplier as u128;
        let quality: u128 = nft_multiplier as u128;
        proof {
            lemma_price_products(decay as int);
        }
        let whole: u128 = NFT_PRICE as u128 * decay;
        let victory: u64 = scaled(whole, quality);
        let top_five: u64 = scaled(whole, 4 * quality);
        let top_ten: u64 = scaled(whole, 10 * quality);
        let kill: u64 = scaled(7 * whole, 150 * quality);
        self.victory = victory;
        self.top_five = top_five;
        self.top_ten = top_ten;
        self.kill = kill;
        self.days = current_day;
    }
}

/// Deriving a schedule is deterministic and idempotent: for one day and one
/// pair of multipliers every schedule becomes the same schedule, whatever it
/// held before, and deriving it a second time changes nothing.
pub proof fn lemma_recompute_deterministic(
    first: Reward,
    second: Reward,
    day: i64,
    quality: u64,
    decay: u64,
)
    ensures
        first.recomputed(day, quality, decay) == second.recomputed(day, quality, decay),
        first.recomputed(day, quality, decay).recomputed(day, quality, decay) == first.recomputed(
            day,
            quality,
            decay,
        ),
        first.recomputed(day, quality, decay).days == day,
{
}

/// No amount of a schedule exceeds the one above it: a kill pays at most what
/// a top-ten place pays, that at most a top-five place, that at most a victory.
pub proof fn lemma_schedule_ordered(day: i64, quality: u64, decay: u64)
    requires
        quality > 0,
    ensures
        schedule_for(day, quality, decay).kill <= schedule_for(day, quality, decay).top_ten,
        schedule_for(day, quality, decay).top_ten <= schedule_for(day, quality, decay).top_five,
        schedule_for(day, quality, decay).top_five <= schedule_for(day, quality, decay).victory,
{
    let p: int = NFT_PRICE * decay;
    let q: int = quality as int;
    lemma_price_products(decay as int);
    assert((7 * p) * (10 * q) <= p * (150 * q) && p * (4 * q) <= p * (10 * q) && p * (1 * q) <= p
        * (4 * q)) by (nonlinear_arith)
        requires
            0 <= p,
            0 < q,
    ;
    lemma_quotient_order(7 * p, 150 * q, p, 10 * q);
    lemma_quotient_order(p, 10 * q, p, 4 * q);
    lemma_quotient_order(p, 4 * q, p, 1 * q);
}

/// The products of the reference price that the schedule uses are multiples
/// of the price scaled by the decay multiplier, and that fits 128 bits with
/// room for the factor seven.
proof fn lemma_price_products(decay: int)
    requires
        0 <= decay <= u64::MAX,
    ensures
        1 * NFT_PRICE * decay == NFT_PRICE * decay,
        7 * NFT_PRICE * decay == 7 * (NFT_PRICE * decay),
        0 <= NFT_PRICE * decay <= NFT_PRICE * u64::MAX,
{
    assert(1 * NFT_PRICE * decay == NFT_PRICE * decay && 7 * NFT_PRICE * decay == 7 * (NFT_PRICE
        * decay) && 0 <= NFT_PRICE * decay <= NFT_PRICE * u64::MAX) by (nonlinear_arith)
        requires
            0 <= decay <= u64::MAX,
            NFT_PRICE == 150000000000,
    ;
}

/// A smaller fraction has a smaller floor: when `a / b <= c / d` as fractions
/// of positive denominators, the same holds of the quotients rounded down.
proof fn lemma_quotient_order(a: int, b: int, c: int, d: int)
    requires
        0 <= a,
        0 <= c,
        0 < b,
        0 < d,
        a * d <= c * b,
    ensures
        a / b <= c / d,
{
    let x: int = a / b;
    let y: int = c / d;
    assert(x * b <= a && a < (x + 1) * b) by (nonlinear_arith)
        requires
            0 <= a,
            0 < b,
            x == a / b,
    ;
    assert(y * d <= c && c < (y + 1) * d) by (nonlinear_arith)
        requires
            0 <= c,
            0 < d,
            y == c / d,
    ;
    assert(x <= y) by (nonlinear_arith)
        requires
            x * b <= a,
            c < (y + 1) * d,
            a * d <= c * b,
            0 < b,
            0 < d,
            0 <= a,
            0 <= c,
    ;
}

} // verus!
