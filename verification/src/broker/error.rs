//! The broker's errors.

use vstd::prelude::*;

verus! {

/// What can go wrong in the broker.
#[derive(Debug)]
pub enum BrokerError {
    NextCycleError(String),
    FillEngineError(String),
    InsufficientFunds(String),
}

impl BrokerError {
    /// The text of the error, as a specification.
    pub open spec fn spec_message(&self) -> Seq<char> {
        match self {
            BrokerError::NextCycleError(d) => d@,
            BrokerError::FillEngineError(d) => d@,
            BrokerError::InsufficientFunds(d) => d@,
        }
    }

    /// The text of the error.
    pub fn message(&self) -> (r: String)
        ensures
            r@ == self.spec_message(),
    {
        match self {
            BrokerError::NextCycleError(d) => d.clone(),
            BrokerError::FillEngineError(d) => d.clone(),
            BrokerError::InsufficientFunds(d) => d.clone(),
        }
    }
}

} // verus!
