use vstd::prelude::*;

use crate::error::{settle, settled, CallOutcome, ContractCallError};
use crate::round::{round_of, RawRound, Round};
use std::time::Duration;

verus! {

/// The state of a client of one price feed: the feed's label, its scale,
/// resolved once when the client was built, and the budget of each call.
///
/// The remote handle itself belongs to whoever drives the calls; this state
/// decides what each completed call yields.
pub struct ChainlinkContract {
    pub identifier: String,
    pub decimals: u8,
    pub call_timeout: Duration,
}

/// The scale that a raw `decimals()` answer resolves to: its low byte.
pub open spec fn scale_of(raw: u64) -> u8 {
    (raw % 256) as u8
}

impl ChainlinkContract {
    /// The client that construction yields once the `decimals()` call ended
    /// in `outcome`: all or nothing.
    pub open spec fn built(
        identifier: String,
        call_timeout: Duration,
        outcome: CallOutcome<u64>,
    ) -> Result<ChainlinkContract, ContractCallError> {
        match settled(outcome) {
            Ok(raw) => Ok(ChainlinkContract { identifier, decimals: scale_of(raw), call_timeout }),
            Err(e) => Err(e),
        }
    }

    /// What a query of this client yields once its `latestRoundData()` call
    /// ended in `outcome`.
    pub open spec fn queried(&self, outcome: CallOutcome<RawRound>) -> Result<Round, ContractCallError> {
        match settled(outcome) {
            Ok(raw) => Ok(round_of(self.identifier, self.decimals, raw)),
            Err(e) => Err(e),
        }
    }

    /// Builds a client of the feed `identifier` from the outcome of the one
    /// bounded `decimals()` call that construction makes.
    pub fn new(identifier: String, call_timeout: Duration, decimals: CallOutcome<u64>) -> (r: Result<
        ChainlinkContract,
        ContractCallError,
    >)
        ensures
            r == Self::built(identifier, call_timeout, decimals),
    {
        let raw = settle(decimals)?;
        Ok(ChainlinkContract { identifier, decimals: (raw % 256) as u8, call_timeout })
    }

    /// The latest round of the feed, from the outcome of one bounded
    /// `latestRoundData()` call made with `self.call_timeout`.
    pub fn latest_round_data(&self, data: CallOutcome<RawRound>) -> (r: Result<Round, ContractCallError>)
        ensures
            r == self.queried(data),
    {
        match settle(data) {
            Ok(raw) => Ok(Round::from_raw(self.identifier.clone(), self.decimals, raw)),
            Err(e) => Err(e),
        }
    }
}

/// A `decimals()` call that runs out of time makes construction fail with a
/// timeout, and no client is built.
pub proof fn lemma_timeout_builds_no_client(identifier: String, call_timeout: Duration)
    ensures
        ChainlinkContract::built(identifier, call_timeout, CallOutcome::Elapsed) == Err::<
            ChainlinkContract,
            ContractCallError,
        >(ContractCallError::Timeout),
{
}

/// A query whose call runs out of time fails with a timeout and leaves the
/// client as it was: a later query on the same client yields its round.
pub proof fn lemma_timeout_keeps_client(client: ChainlinkContract, raw: RawRound)
    ensures
        client.queried(CallOutcome::Elapsed) == Err::<Round, ContractCallError>(
            ContractCallError::Timeout,
        ),
        client.queried(CallOutcome::Returned(raw)) == Ok::<Round, ContractCallError>(
            round_of(client.identifier, client.decimals, raw),
        ),
{
}

} // verus!
