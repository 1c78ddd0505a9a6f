//! The errors of a run.

use vstd::prelude::*;
use crate::broker::error::BrokerError;
use crate::data::error::DataError;

verus! {

/// What can go wrong in the engine: at set-up, in a feed, in the broker, with
/// an order, or when a currency pair has no rate.
#[derive(Debug)]
pub enum Error {
    IncompleteBuilder(String),
    BrokerError(BrokerError),
    DataError(DataError),
    OrderError(String),
    FXConversionError(String),
}

impl Error {
    /// The text of the error, as a specification.
    pub open spec fn spec_message(&self) -> Seq<char> {
        match self {
            Error::IncompleteBuilder(d) => d@,
            Error::BrokerError(err) => err.spec_message(),
            Error::DataError(err) => err.spec_message(),
            Error::OrderError(d) => d@,
            Error::FXConversionError(d) => d@,
        }
    }

    /// The text of the error.
    pub fn message(&self) -> (r: String)
        ensures
            r@ == self.spec_message(),
    {
        match self {
            Error::IncompleteBuilder(d) => d.clone(),
            Error::BrokerError(err) => err.message(),
            Error::DataError(err) => err.message(),
            Error::OrderError(d) => d.clone(),
            Error::FXConversionError(d) => d.clone(),
        }
    }
}

impl From<BrokerError> for Error {
    fn from(err: BrokerError) -> (r: Error) {
        Error::BrokerError(err)
    }
}

impl vstd::std_specs::convert::FromSpecImpl<BrokerError> for Error {
    open spec fn obeys_from_spec() -> bool {
        true
    }

    open spec fn from_spec(err: BrokerError) -> Error {
        Error::BrokerError(err)
    }
}

impl From<DataError> for Error {
    fn from(err: DataError) -> (r: Error) {
        Error::DataError(err)
    }
}

impl vstd::std_specs::convert::FromSpecImpl<DataError> for Error {
    open spec fn obeys_from_spec() -> bool {
        true
    }

    open spec fn from_spec(err: DataError) -> Error {
        Error::DataError(err)
    }
}

} // verus!
