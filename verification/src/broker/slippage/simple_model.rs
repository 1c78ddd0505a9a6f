//! The simplest slippage model: a fixed fraction of the price, against the
//! order.

use vstd::prelude::*;
use crate::DataNumberType;
use crate::broker::orders::Order;
use crate::broker::orders::Side;
use crate::broker::slippage::SlippageModel;
use crate::broker::slippage::best_ask_price;
use crate::broker::slippage::best_bid_price;
use crate::data::DataPoint;

verus! {

/// A buy pays the ask raised by the slippage fraction; a sell gets the bid
/// lowered by it.
#[derive(Debug, Clone, Copy)]
pub struct SimpleSlippageModel<T: DataNumberType> {
    pub slippage: T,
}

/// `price * (1 + slippage)`, where that has a value.
pub open spec fn inflated<T: DataNumberType>(price: T, slippage: T) -> Option<T> {
    match T::from_i8_spec(1).add_spec(slippage) {
        Some(factor) => price.mul_spec(factor),
        None => None,
    }
}

/// `price * (1 - slippage)`, where that has a value.
pub open spec fn deflated<T: DataNumberType>(price: T, slippage: T) -> Option<T> {
    match T::from_i8_spec(1).sub_spec(slippage) {
        Some(factor) => price.mul_spec(factor),
        None => None,
    }
}

impl<T: DataNumberType> SimpleSlippageModel<T> {
    pub fn new(slippage: T) -> (r: Self)
        ensures
            r.slippage == slippage,
    {
        SimpleSlippageModel { slippage }
    }
}

impl<T: DataNumberType> SlippageModel for SimpleSlippageModel<T> {
    type NumberType = T;

    open spec fn price_spec(&self, datapoint: DataPoint<T>, side: Side) -> Option<T> {
        match side {
            Side::Buy => inflated(best_ask_price(datapoint), self.slippage),
            Side::Sell => deflated(best_bid_price(datapoint), self.slippage),
        }
    }

    fn get_slippage_approximation<O: Order>(&self, datapoint: &DataPoint<T>, order: &O) -> (r:
        Option<T>) {
        match order.get_side() {
            Side::Buy => match T::from_i8(1).checked_add(self.slippage) {
                Some(factor) => Self::get_best_ask_price(datapoint).checked_mul(factor),
                None => None,
            },
            Side::Sell => match T::from_i8(1).checked_sub(self.slippage) {
                Some(factor) => Self::get_best_bid_price(datapoint).checked_mul(factor),
                None => None,
            },
        }
    }
}

} // verus!
