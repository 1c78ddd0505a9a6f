//! The slice: the bars of all instruments observed in one interval of the
//! clock.

use vstd::prelude::*;
use std::cmp::Ordering;
use crate::DataNumberType;
use crate::data::DataPoint;
use crate::data::DataType;
use crate::data::tradebars::TradeBar;
use crate::data::tradebars::TradeBars;
use crate::security::SecuritySymbol;
use crate::security::SymbolId;
use crate::utils::Merge;

verus! {

/// The bars of one interval, by instrument, with the time at which the
/// interval ends. Two slices are equal, and ordered, by their end times alone.
pub struct Slice<T: DataNumberType> {
    end_time: i64,
    bars: Option<TradeBars<T>>,
}

impl<T: DataNumberType> Slice<T> {
    /// The end of the interval, as a specification.
    pub closed spec fn end_time(&self) -> i64 {
        self.end_time
    }

    /// The bars by instrument, as a specification.
    pub closed spec fn bars(&self) -> Map<SymbolId, TradeBar<T>> {
        match self.bars {
            Some(bars) => bars@,
            None => Map::empty(),
        }
    }

    /// A slice without bars.
    pub fn new(time: i64) -> (r: Self)
        ensures
            r.end_time() == time,
            r.bars() == Map::<SymbolId, TradeBar<T>>::empty(),
    {
        Slice { end_time: time, bars: None }
    }

    /// The end of the interval.
    pub fn get_end_time(&self) -> (r: i64)
        ensures
            r == self.end_time(),
    {
        self.end_time
    }

    /// Whether the slice holds a bar of any instrument.
    pub fn has_data(&self) -> (r: bool)
        ensures
            r == (self.bars() != Map::<SymbolId, TradeBar<T>>::empty()),
    {
        match &self.bars {
            Some(bars) => bars.has_data(),
            None => false,
        }
    }

    /// Stores the bar of an instrument; a later bar replaces an earlier one.
    pub fn add_bar(&mut self, symbol: SecuritySymbol, bar: TradeBar<T>)
        ensures
            final(self).end_time() == old(self).end_time(),
            final(self).bars() == old(self).bars().insert(symbol@, bar),
    {
        let mut tradebars = match self.bars.take() {
            Some(bars) => bars,
            None => TradeBars::new(),
        };
        tradebars.add(symbol, bar);
        self.bars = Some(tradebars);
    }

    /// The bars after a data point was offered: a bar is stored under the
    /// point's instrument, a tick is left out.
    pub open spec fn bars_with(bars: Map<SymbolId, TradeBar<T>>, point: DataPoint<T>) -> Map<
        SymbolId,
        TradeBar<T>,
    > {
        match point.data {
            DataType::Bar(x) => bars.insert(point.symbol@, x),
            DataType::Tick(_) => bars,
        }
    }

    /// Stores the bar that a data point carries; a tick is left out.
    pub fn add_datapoint(&mut self, point: DataPoint<T>)
        ensures
            final(self).end_time() == old(self).end_time(),
            final(self).bars() == Self::bars_with(old(self).bars(), point),
    {
        match point.get_data() {
            DataType::Bar(x) => self.add_bar(point.get_symbol(), x),
            DataType::Tick(_) => {},
        }
    }

    /// The bar of an instrument.
    pub fn get_bar_by_symbol(&self, key: &SecuritySymbol) -> (r: Option<&TradeBar<T>>)
        ensures
            r is Some <==> self.bars().contains_key(key@),
            r matches Some(bar) ==> *bar == self.bars()[key@],
    {
        if let Some(v) = &self.bars {
            return v.get_bar(key);
        }
        None
    }

    /// The instruments that have a bar.
    pub fn symbols(&self) -> (r: Vec<SecuritySymbol>)
        ensures
            forall|id: SymbolId|
                self.bars().contains_key(id) <==> exists|i: int|
                    0 <= i < r@.len() && (#[trigger] r@[i])@ == id,
    {
        match &self.bars {
            Some(bars) => bars.symbols(),
            None => Vec::new(),
        }
    }
}

impl<T: DataNumberType> PartialEq for Slice<T> {
    fn eq(&self, other: &Self) -> (r: bool) {
        self.end_time == other.end_time
    }
}

impl<T: DataNumberType> vstd::std_specs::cmp::PartialEqSpecImpl for Slice<T> {
    open spec fn obeys_eq_spec() -> bool {
        true
    }

    open spec fn eq_spec(&self, other: &Self) -> bool {
        self.end_time() == other.end_time()
    }
}

impl<T: DataNumberType> PartialOrd for Slice<T> {
    fn partial_cmp(&self, other: &Self) -> (r: Option<Ordering>) {
        if self.end_time < other.end_time {
            Some(Ordering::Less)
        } else if self.end_time > other.end_time {
            Some(Ordering::Greater)
        } else {
            Some(Ordering::Equal)
        }
    }
}

impl<T: DataNumberType> vstd::std_specs::cmp::PartialOrdSpecImpl for Slice<T> {
    open spec fn obeys_partial_cmp_spec() -> bool {
        true
    }

    open spec fn partial_cmp_spec(&self, other: &Self) -> Option<Ordering> {
        if self.end_time() < other.end_time() {
            Some(Ordering::Less)
        } else if self.end_time() > other.end_time() {
            Some(Ordering::Greater)
        } else {
            Some(Ordering::Equal)
        }
    }
}

impl<T: DataNumberType> Merge for Slice<T> {
    /// The bars of both slices under the end time of the first; where both
    /// have a bar of an instrument, the other's.
    open spec fn merges(before: Self, other: Self, after: Self) -> bool {
        after.end_time() == before.end_time() && after.bars() == before.bars().union_prefer_right(
            other.bars(),
        )
    }

    fn merge(&mut self, other: Self) {
        let ghost mine = self.bars();
        let ghost theirs = other.bars();
        self.bars.merge(other.bars);
        proof {
            assert(self.bars() =~= mine.union_prefer_right(theirs));
        }
    }
}

} // verus!
