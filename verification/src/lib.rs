//! Deterministic, event-driven backtesting core: a simulation clock, a market
//! data window builder, an order fill engine, a broker, a multi-currency
//! portfolio ledger and an exchange rate cache, generic over the number type
//! that carries prices, volumes and cash.

use vstd::prelude::*;

pub mod algorithm;
pub mod broker;
pub mod data;
pub mod decimal;
pub mod error;
pub mod portfolio;
pub mod rtengine;
pub mod security;
pub mod table;
pub mod time;
pub mod utils;

verus! {

/// The arithmetic that prices, volumes and cash amounts must offer.
///
/// Every operation is total: where the number type has no value for a result
/// (an overflow, a division by zero) it answers `None`, and the library says in
/// each contract what it does then. The `*_spec` functions are the number
/// type's own account of its arithmetic; the library's contracts are stated
/// over them.
pub trait NumberType: Copy + Sized {
    /// `self + rhs`, where the type can represent it.
    spec fn add_spec(self, rhs: Self) -> Option<Self>;

    /// `self - rhs`, where the type can represent it.
    spec fn sub_spec(self, rhs: Self) -> Option<Self>;

    /// `self * rhs`, where the type can represent it.
    spec fn mul_spec(self, rhs: Self) -> Option<Self>;

    /// `self / rhs`, where the type can represent it.
    spec fn div_spec(self, rhs: Self) -> Option<Self>;

    /// The remainder of `self / rhs`, where the type can represent it.
    spec fn rem_spec(self, rhs: Self) -> Option<Self>;

    /// `self < rhs` in the type's own order.
    spec fn lt_spec(self, rhs: Self) -> bool;

    /// The number that stands for the small integer `v`.
    spec fn from_i8_spec(v: i8) -> Self;

    fn checked_add(self, rhs: Self) -> (r: Option<Self>)
        ensures
            r == self.add_spec(rhs),
    ;

    fn checked_sub(self, rhs: Self) -> (r: Option<Self>)
        ensures
            r == self.sub_spec(rhs),
    ;

    fn checked_mul(self, rhs: Self) -> (r: Option<Self>)
        ensures
            r == self.mul_spec(rhs),
    ;

    fn checked_div(self, rhs: Self) -> (r: Option<Self>)
        ensures
            r == self.div_spec(rhs),
    ;

    fn checked_rem(self, rhs: Self) -> (r: Option<Self>)
        ensures
            r == self.rem_spec(rhs),
    ;

    fn less_than(self, rhs: Self) -> (r: bool)
        ensures
            r == self.lt_spec(rhs),
    ;

    fn from_i8(v: i8) -> (r: Self)
        ensures
            r == Self::from_i8_spec(v),
    ;
}

/// A number type fit for market data: prices, volumes and rates.
pub trait DataNumberType: NumberType {
}

/// A number type fit for the ledger: cash balances and holdings.
pub trait PortfolioNumberType: NumberType {
}

} // verus!
