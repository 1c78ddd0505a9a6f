//! Market data: data points, bars, the per-cycle slice, the exchange rate
//! cache, feeds and the manager that ties them together.

use vstd::prelude::*;
use crate::NumberType;
use crate::DataNumberType;
use crate::security::Currency;
use crate::security::Equity;
use crate::security::Security;
use crate::security::SecuritySymbol;
use crate::security::SecurityType;
use crate::data::tradebars::TradeBar;

pub mod data_providers;
pub mod datafeed;
pub mod datamanger;
pub mod error;
pub mod fx_manager;
pub mod slice;
pub mod tradebars;

verus! {

/// The time step of a feed or of the clock.
#[derive(Debug, Clone, Copy, PartialEq, Eq, Structural)]
pub enum Resolution {
    Tick,
    Second,
    Minute,
    Hour,
    Day,
    Week,
}

impl Resolution {
    /// The step in milliseconds; a tick has no length.
    pub open spec fn spec_millis(self) -> i64 {
        match self {
            Resolution::Tick => 0,
            Resolution::Second => 1000,
            Resolution::Minute => 60000,
            Resolution::Hour => 3600000,
            Resolution::Day => 86400000,
            Resolution::Week => 604800000,
        }
    }

    /// The step in milliseconds.
    #[verifier::when_used_as_spec(spec_millis)]
    pub fn millis(self) -> (r: i64)
        ensures
            r == self.spec_millis(),
            0 <= r <= 604800000,
    {
        match self {
            Resolution::Tick => 0,
            Resolution::Second => 1000,
            Resolution::Minute => 60000,
            Resolution::Hour => 3600000,
            Resolution::Day => 86400000,
            Resolution::Week => 604800000,
        }
    }
}

/// What a data point carries: a bar, or a single tick value.
#[derive(Debug, Clone, Copy, PartialEq)]
pub enum DataType<T: DataNumberType> {
    Bar(TradeBar<T>),
    Tick(T),
}

impl<T: DataNumberType> DataType<T> {
    /// The latest price the data shows: a bar's close, or the tick itself.
    pub open spec fn spec_spot(&self) -> Option<T> {
        match self {
            DataType::Bar(bar) => Some(bar.close),
            DataType::Tick(x) => Some(*x),
        }
    }

    /// The latest price the data shows: a bar's close, or the tick itself.
    #[verifier::when_used_as_spec(spec_spot)]
    pub fn get_spot(&self) -> (r: Option<T>)
        ensures
            r == self.spec_spot(),
    {
        match self {
            DataType::Bar(bar) => Some(bar.get_spot()),
            DataType::Tick(x) => Some(*x),
        }
    }
}

/// One observation of one instrument at one time.
#[derive(Debug, PartialEq)]
pub struct DataPoint<T: DataNumberType> {
    pub symbol: SecuritySymbol,
    pub time: i64,
    pub data: DataType<T>,
    pub period: Resolution,
}

impl<T: DataNumberType> Clone for DataPoint<T> {
    fn clone(&self) -> (r: Self)
        ensures
            r == *self,
    {
        DataPoint {
            symbol: self.symbol.clone(),
            time: self.time,
            data: self.data,
            period: self.period,
        }
    }
}

impl<T: DataNumberType> DataPoint<T> {
    pub fn new(symbol: SecuritySymbol, time: i64, data: DataType<T>, period: Resolution) -> (r:
        Self)
        ensures
            r == (DataPoint { symbol, time, data, period }),
    {
        DataPoint { symbol, time, data, period }
    }

    pub fn get_symbol(&self) -> (r: SecuritySymbol)
        ensures
            r == self.symbol,
    {
        self.symbol.clone()
    }

    pub fn get_time(&self) -> (r: i64)
        ensures
            r == self.time,
    {
        self.time
    }

    pub fn get_period(&self) -> (r: Resolution)
        ensures
            r == self.period,
    {
        self.period
    }

    pub fn get_data(&self) -> (r: DataType<T>)
        ensures
            r == self.data,
    {
        self.data
    }
}

/// Data that can stand in for a later interval in which nothing new arrived.
pub trait FillFwd {
    fn fill_fwd(self) -> Self;
}

/// One row of the database of instrument properties. A row whose symbol is
/// `*` stands for every instrument of its market and kind.
#[derive(Debug)]
pub struct DataSymbolProperties<T: NumberType> {
    pub market: String,
    pub symbol: String,
    pub security_type: SecurityType,
    pub description: String,
    pub quote_currency: Currency,
    pub contract_multiplier: T,
    pub minimum_price_variation: T,
    pub lot_size: T,
    pub market_ticker: Option<String>,
    pub minimum_order_size: Option<T>,
    pub price_magnifier: Option<T>,
}

impl<T: NumberType> DataSymbolProperties<T> {
    /// The details that a portfolio keeps of an instrument with these
    /// properties, as a specification.
    pub open spec fn spec_to_security(&self) -> Security<T> {
        Security::Equity(
            Equity { currency: self.quote_currency, minimum_price_variation: self.lot_size },
        )
    }

    /// The details that a portfolio keeps of an instrument with these
    /// properties.
    pub fn to_security(&self) -> (r: Security<T>)
        ensures
            r == self.spec_to_security(),
    {
        Security::Equity(Equity::new(self.quote_currency, self.lot_size))
    }

    /// Whether the row stands for every instrument of a market and a kind.
    pub open spec fn covers(&self, market: Seq<char>, kind: SecurityType) -> bool {
        self.symbol@ == "*"@ && self.market@ == market && self.security_type == kind
    }
}

/// The place of the first row that names the instrument itself, if there is
/// one.
pub open spec fn first_named<T: NumberType>(
    rows: Seq<DataSymbolProperties<T>>,
    symbol: Seq<char>,
) -> Option<int> {
    if exists|i: int| 0 <= i < rows.len() && (#[trigger] rows[i]).symbol@ == symbol {
        Some(
            choose|i: int|
                0 <= i < rows.len() && (#[trigger] rows[i]).symbol@ == symbol && forall|j: int|
                    0 <= j < i ==> (#[trigger] rows[j]).symbol@ != symbol,
        )
    } else {
        None
    }
}

/// The place of the first row that covers the instrument's market and kind,
/// if there is one.
pub open spec fn first_covering<T: NumberType>(
    rows: Seq<DataSymbolProperties<T>>,
    market: Seq<char>,
    kind: SecurityType,
) -> Option<int> {
    if exists|i: int| 0 <= i < rows.len() && (#[trigger] rows[i]).covers(market, kind) {
        Some(
            choose|i: int|
                0 <= i < rows.len() && (#[trigger] rows[i]).covers(market, kind) && forall|j: int|
                    0 <= j < i ==> !(#[trigger] rows[j]).covers(market, kind),
        )
    } else {
        None
    }
}

/// The row of the database that gives an instrument's properties: the first
/// row that names the instrument's symbol; where none does, the first row
/// that covers its market and kind.
pub open spec fn properties_of<T: NumberType>(
    rows: Seq<DataSymbolProperties<T>>,
    security: SecuritySymbol,
    market: Seq<char>,
) -> Option<int> {
    match first_named(rows, security.spec_symbol()) {
        Some(i) => Some(i),
        None => first_covering(rows, market, security.spec_security_type()),
    }
}

/// Finds the row of the database that gives an instrument's properties.
pub fn select_symbol_properties<T: NumberType>(
    rows: &Vec<DataSymbolProperties<T>>,
    security: &SecuritySymbol,
    market: &str,
) -> (r: Option<usize>)
    ensures
        r is Some <==> properties_of(rows@, *security, market@) is Some,
        r matches Some(i) ==> properties_of(rows@, *security, market@) == Some(i as int) && i
            < rows@.len(),
{
    let symbol = security.symbol();
    let kind = security.security_type();
    let star = String::from_str("*");
    let wanted = String::from_str(market);
    let mut i: usize = 0;
    while i < rows.len()
        invariant
            i <= rows@.len(),
            symbol@ == security.spec_symbol(),
            forall|j: int| 0 <= j < i ==> (#[trigger] rows@[j]).symbol@ != symbol@,
        decreases rows@.len() - i,
    {
        if rows[i].symbol == symbol {
            return Some(i);
        }
        i += 1;
    }
    let mut k: usize = 0;
    while k < rows.len()
        invariant
            k <= rows@.len(),
            symbol@ == security.spec_symbol(),
            kind == security.spec_security_type(),
            star@ == "*"@,
            wanted@ == market@,
            first_named(rows@, symbol@) is None,
            forall|j: int| 0 <= j < k ==> !(#[trigger] rows@[j]).covers(market@, kind),
        decreases rows@.len() - k,
    {
        if rows[k].symbol == star && rows[k].market == wanted && rows[k].security_type == kind {
            return Some(k);
        }
        k += 1;
    }
    None
}

} // verus!
