//! What a vendor's row of data must offer to become part of a feed.

use vstd::prelude::*;
use crate::DataNumberType;
use crate::data::DataPoint;
use crate::data::Resolution;
use crate::data::tradebars::TradeBar;
use crate::security::SecuritySymbol;

verus! {

/// A row that holds the values of a bar.
pub trait IntoTradeBar {
    type NumberType: DataNumberType;

    fn to_tradebar(&self) -> TradeBar<Self::NumberType>;
}

/// A row that becomes a data point of an instrument at a resolution.
pub trait IntoDataPoint {
    type NumberType: DataNumberType;

    fn to_datapoint(self, symbol: SecuritySymbol, period: Resolution) -> DataPoint<
        Self::NumberType,
    >;
}

/// The length of a day in milliseconds.
pub const DAY_MILLIS: i64 = 86400000;

/// The data point of a daily row of open, high, low, close and volume: a bar
/// from the midnight that starts the row's day to the midnight that ends it,
/// stamped with its end. Nothing where the end of the day is beyond the range
/// of the clock.
pub fn daily_datapoint<T: DataNumberType>(
    symbol: SecuritySymbol,
    day_start: i64,
    open: T,
    high: T,
    low: T,
    close: T,
    volume: T,
    resolution: Resolution,
) -> (r: Option<DataPoint<T>>)
    ensures
        r is Some <==> day_start + DAY_MILLIS <= i64::MAX,
        r matches Some(point) ==> point == (DataPoint {
            symbol,
            time: (day_start + DAY_MILLIS) as i64,
            data: crate::data::DataType::Bar(
                TradeBar {
                    volume,
                    open,
                    high,
                    low,
                    close,
                    start_time: day_start,
                    end_time: (day_start + DAY_MILLIS) as i64,
                    is_fill_fwd: true,
                },
            ),
            period: resolution,
        }),
{
    match day_start.checked_add(DAY_MILLIS) {
        Some(day_end) => {
            let bar = TradeBar::new(volume, open, high, low, close, day_start, day_end, true);
            Some(DataPoint::new(symbol, day_end, crate::data::DataType::Bar(bar), resolution))
        },
        None => None,
    }
}

} // verus!
