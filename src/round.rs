use vstd::prelude::*;

use crate::decimal::{decimal_string, digits_of};

verus! {

/// A 256-bit unsigned integer of the chain; timestamps travel as these.
#[verifier::external_type_specification]
#[verifier::external_body]
pub struct ExU256(ethers::types::U256);

/// The tuple that `latestRoundData` returns: round id, raw answer, start
/// time, update time, and the round in which the answer was computed.
pub type RawRound = (u128, u128, ethers::types::U256, ethers::types::U256, u128);

/// The latest price received for one feed, as the feed's contract reported it.
///
/// The answer is kept as the contract's fixed-point integer together with
/// the feed's scale: its value is `raw_answer / 10^decimals`.
pub struct Round {
    /// Identifier of the underlying asset.
    pub identifier: String,
    /// Id of the submission by the aggregator.
    pub round_id: u128,
    /// The round in which the answer was computed.
    pub answered_in_round: u128,
    /// When the aggregator started collecting data.
    pub started_at: ethers::types::U256,
    /// When the aggregator posted the price update.
    pub updated_at: ethers::types::U256,
    /// The answer as the contract encodes it.
    pub raw_answer: u128,
    /// The number of fractional decimal digits in `raw_answer`.
    pub decimals: u8,
}

/// The round that a query of the feed `identifier`, whose scale is
/// `decimals`, reports for the raw tuple `raw`.
pub open spec fn round_of(identifier: String, decimals: u8, raw: RawRound) -> Round {
    Round {
        identifier,
        round_id: raw.0,
        answered_in_round: raw.4,
        started_at: raw.2,
        updated_at: raw.3,
        raw_answer: raw.1,
        decimals,
    }
}

impl Round {
    /// Packages a raw round tuple with the feed's identifier and scale.
    pub fn from_raw(identifier: String, decimals: u8, raw: RawRound) -> (r: Round)
        ensures
            r == round_of(identifier, decimals, raw),
    {
        let (round_id, raw_answer, started_at, updated_at, answered_in_round) = raw;
        Round {
            identifier,
            round_id,
            answered_in_round,
            started_at,
            updated_at,
            raw_answer,
            decimals,
        }
    }

    /// The exact decimal string of the raw answer; read as a float and
    /// divided by `10^decimals` it gives the human-readable answer.
    pub fn answer_text(&self) -> (r: String)
        ensures
            r@ == digits_of(self.raw_answer as nat),
    {
        decimal_string(self.raw_answer)
    }
}

} // verus!
