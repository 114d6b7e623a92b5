use vstd::prelude::*;

verus! {

/// The three kinds of failure that a remote read can end in.
pub enum ContractCallError {
    /// The call could not be encoded against the embedded contract schema
    /// (an unknown function name, or arguments that do not fit it).
    Abi(String),
    /// The call did not complete within the call-timeout budget.
    Timeout,
    /// The transport or the contract reported a failure.
    Contract(String),
}

/// What came of one bounded remote call, as its driver observed it.
pub enum CallOutcome<T> {
    /// The schema refused the call, so it was never dispatched.
    Unencodable(String),
    /// The deadline passed before the call completed.
    Elapsed,
    /// The call completed with a transport or contract failure.
    Failed(String),
    /// The call completed with this value.
    Returned(T),
}

/// The result that a bounded call reports for an outcome.
pub open spec fn settled<T>(outcome: CallOutcome<T>) -> Result<T, ContractCallError> {
    match outcome {
        CallOutcome::Unencodable(m) => Err(ContractCallError::Abi(m)),
        CallOutcome::Elapsed => Err(ContractCallError::Timeout),
        CallOutcome::Failed(m) => Err(ContractCallError::Contract(m)),
        CallOutcome::Returned(v) => Ok(v),
    }
}

/// Classifies the outcome of one bounded call: the value on completion,
/// otherwise exactly one kind of error, with the transport's detail kept.
pub fn settle<T>(outcome: CallOutcome<T>) -> (r: Result<T, ContractCallError>)
    ensures
        r == settled(outcome),
{
    match outcome {
        CallOutcome::Unencodable(m) => Err(ContractCallError::Abi(m)),
        CallOutcome::Elapsed => Err(ContractCallError::Timeout),
        CallOutcome::Failed(m) => Err(ContractCallError::Contract(m)),
        CallOutcome::Returned(v) => Ok(v),
    }
}

impl ContractCallError {
    /// The description of the error: its kind, then the detail it carries.
    pub open spec fn spec_message(&self) -> Seq<char> {
        match self {
            ContractCallError::Abi(m) => "Abi error: "@ + m@,
            ContractCallError::Timeout => "Timeout error: future has timed out"@,
            ContractCallError::Contract(m) => "Contract error: "@ + m@,
        }
    }

    /// A human-readable description of the error.
    pub fn message(&self) -> (r: String)
        ensures
            r@ == self.spec_message(),
    {
        match self {
            ContractCallError::Abi(m) => String::from_str("Abi error: ").concat(m.as_str()),
            ContractCallError::Timeout => String::from_str("Timeout error: future has timed out"),
            ContractCallError::Contract(m) => String::from_str("Contract error: ").concat(m.as_str()),
        }
    }
}

} // verus!
