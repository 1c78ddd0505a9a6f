//! The errors of the market data side.

use vstd::prelude::*;

verus! {

/// What can go wrong with a data feed. `CSVError` carries the text of the
/// reader's error.
#[derive(Debug)]
pub enum DataError {
    ConnectionError,
    CSVError(String),
    IncompleteDataFeedBuilder(String),
    FeedError(String),
}

impl DataError {
    /// The text of the error, as a specification.
    pub open spec fn spec_message(&self) -> Seq<char> {
        match self {
            DataError::ConnectionError => "Failed to connect Feed"@,
            DataError::CSVError(d) => d@,
            DataError::IncompleteDataFeedBuilder(d) => d@,
            DataError::FeedError(d) => d@,
        }
    }

    /// The text of the error.
    pub fn message(&self) -> (r: String)
        ensures
            r@ == self.spec_message(),
    {
        match self {
            DataError::ConnectionError => String::from_str("Failed to connect Feed"),
            DataError::CSVError(d) => d.clone(),
            DataError::IncompleteDataFeedBuilder(d) => d.clone(),
            DataError::FeedError(d) => d.clone(),
        }
    }
}

} // verus!
