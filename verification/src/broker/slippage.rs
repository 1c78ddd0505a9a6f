//! Slippage models: how far from the market's price an order trades.

use vstd::prelude::*;
use crate::DataNumberType;
use crate::broker::orders::Order;
use crate::broker::orders::Side;
use crate::data::DataPoint;
use crate::data::DataType;

pub mod simple_model;

verus! {

/// The price at which the market sells, as far as a data point shows it: the
/// open of a bar, or the tick itself.
pub open spec fn best_ask_price<T: DataNumberType>(datapoint: DataPoint<T>) -> T {
    match datapoint.data {
        DataType::Bar(data) => data.open,
        DataType::Tick(data) => data,
    }
}

/// The price at which the market buys, as far as a data point shows it: the
/// open of a bar, or the tick itself.
pub open spec fn best_bid_price<T: DataNumberType>(datapoint: DataPoint<T>) -> T {
    match datapoint.data {
        DataType::Bar(data) => data.open,
        DataType::Tick(data) => data,
    }
}

/// A model of the price that an order trades at, given the latest data of its
/// instrument.
pub trait SlippageModel {
    type NumberType: DataNumberType;

    /// The price the model gives an order of one side against a data point,
    /// or nothing where the price has no value in the number type.
    spec fn price_spec(&self, datapoint: DataPoint<Self::NumberType>, side: Side) -> Option<
        Self::NumberType,
    >;

    /// The price at which the order trades against the data point.
    fn get_slippage_approximation<O: Order>(
        &self,
        datapoint: &DataPoint<Self::NumberType>,
        order: &O,
    ) -> (r: Option<Self::NumberType>)
        ensures
            r == self.price_spec(*datapoint, order.spec_side()),
    ;

    /// The price at which the market sells: the open of a bar, or the tick.
    fn get_best_ask_price<T: DataNumberType>(datapoint: &DataPoint<T>) -> (r: T)
        ensures
            r == best_ask_price(*datapoint),
    {
        match datapoint.get_data() {
            DataType::Bar(data) => data.open,
            DataType::Tick(data) => data,
        }
    }

    /// The price at which the market buys: the open of a bar, or the tick.
    fn get_best_bid_price<T: DataNumberType>(datapoint: &DataPoint<T>) -> (r: T)
        ensures
            r == best_bid_price(*datapoint),
    {
        match datapoint.get_data() {
            DataType::Bar(data) => data.open,
            DataType::Tick(data) => data,
        }
    }
}

} // verus!
