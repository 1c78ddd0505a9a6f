//! Orders and what becomes of them: a fill, or an error.

use vstd::prelude::*;
use crate::DataNumberType;
use crate::security::SecuritySymbol;

verus! {

/// Whether an order buys or sells.
#[derive(Debug, Clone, Copy, PartialEq, Eq, Structural)]
pub enum Side {
    Buy,
    Sell,
}

/// What every order tells of itself.
pub trait Order {
    type NumberType;

    spec fn spec_id(&self) -> String;

    spec fn spec_symbol(&self) -> SecuritySymbol;

    spec fn spec_timestamp(&self) -> i64;

    spec fn spec_volume(&self) -> Self::NumberType;

    spec fn spec_side(&self) -> Side;

    /// The order's id.
    fn get_id(&self) -> (r: String)
        ensures
            r == self.spec_id(),
    ;

    /// The instrument the order is for.
    fn get_symbol(&self) -> (r: SecuritySymbol)
        ensures
            r == self.spec_symbol(),
    ;

    /// The time at which the order was placed.
    fn get_timestamp(&self) -> (r: i64)
        ensures
            r == self.spec_timestamp(),
    ;

    /// The number of units the order is for.
    fn get_volume(&self) -> (r: Self::NumberType)
        ensures
            r == self.spec_volume(),
    ;

    /// Whether the order buys or sells.
    fn get_side(&self) -> (r: Side)
        ensures
            r == self.spec_side(),
    ;
}

/// An order to trade at the market's price.
#[derive(Debug, PartialEq)]
pub struct MarketOrder<T: DataNumberType> {
    pub id: String,
    pub symbol: SecuritySymbol,
    pub timestamp: i64,
    pub volume: T,
    pub side: Side,
}

impl<T: DataNumberType> Clone for MarketOrder<T> {
    fn clone(&self) -> (r: Self)
        ensures
            r == *self,
    {
        MarketOrder {
            id: self.id.clone(),
            symbol: self.symbol.clone(),
            timestamp: self.timestamp,
            volume: self.volume,
            side: self.side,
        }
    }
}

impl<T: DataNumberType> MarketOrder<T> {
    pub fn new(id: &str, symbol: SecuritySymbol, timestamp: i64, volume: T, side: Side) -> (r:
        Self)
        ensures
            r.id@ == id@,
            r.symbol == symbol,
            r.timestamp == timestamp,
            r.volume == volume,
            r.side == side,
    {
        MarketOrder { id: String::from_str(id), symbol, timestamp, volume, side }
    }
}

impl<T: DataNumberType> Order for MarketOrder<T> {
    type NumberType = T;

    open spec fn spec_id(&self) -> String {
        self.id
    }

    open spec fn spec_symbol(&self) -> SecuritySymbol {
        self.symbol
    }

    open spec fn spec_timestamp(&self) -> i64 {
        self.timestamp
    }

    open spec fn spec_volume(&self) -> T {
        self.volume
    }

    open spec fn spec_side(&self) -> Side {
        self.side
    }

    fn get_id(&self) -> (r: String) {
        let id = self.id.clone();
        assert(self.spec_id() == self.id);
        id
    }

    fn get_symbol(&self) -> (r: SecuritySymbol) {
        self.symbol.clone()
    }

    fn get_timestamp(&self) -> (r: i64) {
        self.timestamp
    }

    fn get_volume(&self) -> (r: T) {
        self.volume
    }

    fn get_side(&self) -> (r: Side) {
        self.side
    }
}

/// An order of any kind.
#[derive(Debug, PartialEq)]
pub enum OrderType<T: DataNumberType> {
    MarketOrder(MarketOrder<T>),
}

impl<T: DataNumberType> Clone for OrderType<T> {
    fn clone(&self) -> (r: Self)
        ensures
            r == *self,
    {
        match self {
            OrderType::MarketOrder(x) => OrderType::MarketOrder(x.clone()),
        }
    }
}

impl<T: DataNumberType> Order for OrderType<T> {
    type NumberType = T;

    open spec fn spec_id(&self) -> String {
        match self {
            OrderType::MarketOrder(x) => x.id,
        }
    }

    open spec fn spec_symbol(&self) -> SecuritySymbol {
        match self {
            OrderType::MarketOrder(x) => x.symbol,
        }
    }

    open spec fn spec_timestamp(&self) -> i64 {
        match self {
            OrderType::MarketOrder(x) => x.timestamp,
        }
    }

    open spec fn spec_volume(&self) -> T {
        match self {
            OrderType::MarketOrder(x) => x.volume,
        }
    }

    open spec fn spec_side(&self) -> Side {
        match self {
            OrderType::MarketOrder(x) => x.side,
        }
    }

    fn get_id(&self) -> (r: String) {
        match self {
            OrderType::MarketOrder(x) => x.get_id(),
        }
    }

    fn get_symbol(&self) -> (r: SecuritySymbol) {
        match self {
            OrderType::MarketOrder(x) => x.get_symbol(),
        }
    }

    fn get_timestamp(&self) -> (r: i64) {
        match self {
            OrderType::MarketOrder(x) => x.get_timestamp(),
        }
    }

    fn get_volume(&self) -> (r: T) {
        match self {
            OrderType::MarketOrder(x) => x.get_volume(),
        }
    }

    fn get_side(&self) -> (r: Side) {
        match self {
            OrderType::MarketOrder(x) => x.get_side(),
        }
    }
}

/// An order that was filled: the time, the volume and price of the fill, and
/// the commission charged.
#[derive(Debug, PartialEq)]
pub struct FilledOrder<T: DataNumberType> {
    pub order: OrderType<T>,
    pub timestamp: i64,
    pub volume: T,
    pub price: T,
    pub commission: T,
    pub partial: bool,
}

impl<T: DataNumberType> Clone for FilledOrder<T> {
    fn clone(&self) -> (r: Self)
        ensures
            r == *self,
    {
        FilledOrder {
            order: self.order.clone(),
            timestamp: self.timestamp,
            volume: self.volume,
            price: self.price,
            commission: self.commission,
            partial: self.partial,
        }
    }
}

impl<T: DataNumberType> FilledOrder<T> {
    pub fn new(
        order: OrderType<T>,
        timestamp: i64,
        volume: T,
        price: T,
        commission: T,
        partial: bool,
    ) -> (r: Self)
        ensures
            r == (FilledOrder { order, timestamp, volume, price, commission, partial }),
    {
        FilledOrder { order, timestamp, volume, price, commission, partial }
    }

    /// The price of the fill times its volume, where that has a value.
    pub open spec fn spec_cost(&self) -> Option<T> {
        self.price.mul_spec(self.volume)
    }

    pub fn get_id(&self) -> (r: String)
        ensures
            r == self.order.spec_id(),
    {
        self.order.get_id()
    }

    pub fn get_symbol(&self) -> (r: SecuritySymbol)
        ensures
            r == self.order.spec_symbol(),
    {
        self.order.get_symbol()
    }

    pub fn get_side(&self) -> (r: Side)
        ensures
            r == self.order.spec_side(),
    {
        self.order.get_side()
    }

    pub fn get_volume(&self) -> (r: T)
        ensures
            r == self.volume,
    {
        self.volume
    }

    pub fn get_price(&self) -> (r: T)
        ensures
            r == self.price,
    {
        self.price
    }

    /// The price of the fill times its volume, or `None` where that has no
    /// value in the number type.
    #[verifier::when_used_as_spec(spec_cost)]
    pub fn get_cost(&self) -> (r: Option<T>)
        ensures
            r == self.spec_cost(),
    {
        self.price.checked_mul(self.volume)
    }

    pub fn get_commission(&self) -> (r: T)
        ensures
            r == self.commission,
    {
        self.commission
    }
}

/// An order that was rejected: the time and the reason.
#[derive(Debug, PartialEq)]
pub struct OrderError<T: DataNumberType> {
    pub order: OrderType<T>,
    pub timestamp: i64,
    pub error: String,
}

impl<T: DataNumberType> Clone for OrderError<T> {
    fn clone(&self) -> (r: Self)
        ensures
            r == *self,
    {
        OrderError { order: self.order.clone(), timestamp: self.timestamp, error: self.error.clone() }
    }
}

impl<T: DataNumberType> OrderError<T> {
    pub fn new(order: OrderType<T>, timestamp: i64, error: &str) -> (r: Self)
        ensures
            r.order == order,
            r.timestamp == timestamp,
            r.error@ == error@,
    {
        OrderError { order, timestamp, error: String::from_str(error) }
    }

    pub fn get_id(&self) -> (r: String)
        ensures
            r == self.order.spec_id(),
    {
        self.order.get_id()
    }

    pub fn get_symbol(&self) -> (r: SecuritySymbol)
        ensures
            r == self.order.spec_symbol(),
    {
        self.order.get_symbol()
    }

    /// The reason for the rejection.
    pub fn message(&self) -> (r: String)
        ensures
            r@ == self.error@,
    {
        self.error.clone()
    }
}

/// The order that an outcome, fill or rejection, is about.
pub open spec fn outcome_order<T: DataNumberType>(
    outcome: Result<FilledOrder<T>, OrderError<T>>,
) -> OrderType<T> {
    match outcome {
        Ok(filled) => filled.order,
        Err(e) => e.order,
    }
}

/// The id of the order that an outcome is about.
pub open spec fn outcome_id<T: DataNumberType>(
    outcome: Result<FilledOrder<T>, OrderError<T>>,
) -> Seq<char> {
    outcome_order(outcome).spec_id()@
}

} // verus!
