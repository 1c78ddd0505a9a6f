//! The market data manager: it owns the feeds, asks them for the points that
//! are due, and builds the slice of each cycle from what they sent.

use vstd::prelude::*;
use crate::DataNumberType;
use crate::data::DataPoint;
use crate::data::datafeed::DataFeed;
use crate::data::datafeed::due;
use crate::data::error::DataError;
use crate::data::fx_manager::FXManager;
use crate::data::slice::Slice;
use crate::data::tradebars::TradeBar;
use crate::rtengine::RunMode;
use crate::security::Currency;
use crate::security::SecuritySymbol;
use crate::security::SymbolId;
use crate::table::Table;
use crate::table::entries_insert;
use crate::time::TimeSync;

verus! {

/// Whether a time lies in the interval that starts after `start` and ends
/// with `end`.
pub open spec fn in_period(time: i64, start: i64, end: i64) -> bool {
    start < time <= end
}

/// The bars of the slice built from a queue of points, first to last: the
/// bar of each point whose time lies in the interval, a later bar of an
/// instrument in place of an earlier one.
pub open spec fn window_bars<T: DataNumberType>(
    points: Seq<DataPoint<T>>,
    start: i64,
    end: i64,
) -> Map<SymbolId, TradeBar<T>>
    decreases points.len(),
{
    if points.len() == 0 {
        Map::empty()
    } else {
        let before = window_bars(points.drop_last(), start, end);
        if in_period(points.last().time, start, end) {
            Slice::bars_with(before, points.last())
        } else {
            before
        }
    }
}

/// The exchange rate that a data point shows, with its pair of currencies:
/// the latest price of a point of a currency pair.
pub open spec fn observed_rate<T: DataNumberType>(point: DataPoint<T>) -> Option<
    ((Currency, Currency), T),
> {
    match (point.symbol, point.data.spec_spot()) {
        (SecuritySymbol::FX(base, foreign), Some(x)) => Some(((base, foreign), x)),
        _ => None,
    }
}

/// The stored exchange rates after a queue of points was read, first to
/// last: every observed rate is stored under its pair, whatever the time of
/// the point.
pub open spec fn rates_after<T: DataNumberType>(
    rates: Seq<((Currency, Currency), T)>,
    points: Seq<DataPoint<T>>,
) -> Seq<((Currency, Currency), T)>
    decreases points.len(),
{
    if points.len() == 0 {
        rates
    } else {
        let before = rates_after(rates, points.drop_last());
        match observed_rate(points.last()) {
            Some(observed) => entries_insert(before, observed.0, observed.1),
            None => before,
        }
    }
}

/// What the first `n` feeds send when asked at the time `now`, feed after
/// feed.
pub open spec fn all_due<T: DataNumberType, D: DataFeed<NumberType = T>>(
    feeds: Seq<D>,
    now: i64,
    n: int,
) -> Seq<DataPoint<T>>
    decreases n,
{
    if n <= 0 {
        Seq::empty()
    } else {
        all_due(feeds, now, n - 1) + due(feeds[n - 1], now)
    }
}

/// Whether a round of asking the feeds stopped at the feed at place `k`: the
/// feeds before it have sent what was due, and the feeds behind it were not
/// asked. Of the feed at place `k` itself nothing is said.
pub open spec fn stopped_at<T: DataNumberType, D: DataFeed<NumberType = T>>(
    before: Seq<D>,
    now: i64,
    after: Seq<D>,
    k: int,
) -> bool {
    &&& 0 <= k < before.len()
    &&& after.len() == before.len()
    &&& forall|j: int| 0 <= j < k ==> (#[trigger] before[j]).sent(now, after[j])
    &&& forall|j: int| k < j < before.len() ==> #[trigger] after[j] == before[j]
}

/// Whether a round of asking the feeds ended with the error of one of them.
pub open spec fn stopped_at_a_feed<T: DataNumberType, D: DataFeed<NumberType = T>>(
    before: Seq<D>,
    now: i64,
    after: Seq<D>,
) -> bool {
    exists|k: int| stopped_at(before, now, after, k)
}

/// The boundary of the slice's interval: of a single point, the bar is in the
/// slice where the point's time is after the start of the period and not
/// after its end. A point at the very start is left out; a point at the very
/// end is taken.
pub proof fn lemma_slice_boundary<T: DataNumberType>(point: DataPoint<T>, start: i64, end: i64)
    ensures
        window_bars(seq![point], start, end) == (if start < point.time <= end {
            Slice::bars_with(Map::empty(), point)
        } else {
            Map::empty()
        }),
        point.time == start ==> window_bars(seq![point], start, end) == Map::<
            SymbolId,
            TradeBar<T>,
        >::empty(),
        point.time == end && start < end ==> window_bars(seq![point], start, end)
            == Slice::bars_with(Map::empty(), point),
{
    let points = seq![point];
    assert(window_bars(points.drop_last(), start, end) == Map::<SymbolId, TradeBar<T>>::empty());
}

/// Whether the point at a place of a queue puts the bar of an instrument into
/// the slice of an interval: it lies in the interval and carries a bar of
/// that instrument.
pub open spec fn contributes<T: DataNumberType>(
    points: Seq<DataPoint<T>>,
    i: int,
    id: SymbolId,
    start: i64,
    end: i64,
) -> bool {
    &&& 0 <= i < points.len()
    &&& in_period(points[i].time, start, end)
    &&& points[i].symbol@ == id
    &&& points[i].data is Bar
}

/// The slice holds a bar of an instrument exactly where some point of the
/// queue lies in the interval and carries a bar of that instrument; points
/// outside the interval, at its start or later than its end, put nothing
/// into the slice.
pub proof fn lemma_slice_holds_the_interval<T: DataNumberType>(
    points: Seq<DataPoint<T>>,
    start: i64,
    end: i64,
    id: SymbolId,
)
    ensures
        window_bars(points, start, end).contains_key(id) <==> exists|i: int|
            contributes(points, i, id, start, end),
    decreases points.len(),
{
    if points.len() > 0 {
        let rest = points.drop_last();
        lemma_slice_holds_the_interval(rest, start, end, id);
        if window_bars(points, start, end).contains_key(id) {
            if window_bars(rest, start, end).contains_key(id) {
                let i = choose|i: int| contributes(rest, i, id, start, end);
                assert(contributes(points, i, id, start, end));
            } else {
                assert(contributes(points, points.len() - 1, id, start, end));
            }
        }
        if exists|i: int| contributes(points, i, id, start, end) {
            let i = choose|i: int| contributes(points, i, id, start, end);
            if i < points.len() - 1 {
                assert(contributes(rest, i, id, start, end));
            }
        }
    }
}

/// What a data manager holds, as values.
#[verifier::reject_recursive_types(T)]
#[verifier::reject_recursive_types(D)]
pub ghost struct ManagerState<T: DataNumberType, D: DataFeed<NumberType = T>> {
    /// The feeds, in the order in which they were added.
    pub feeds: Seq<D>,
    /// The points that the feeds sent and no slice has taken yet.
    pub queue: Seq<DataPoint<T>>,
    /// The stored exchange rates, in the order in which their pairs came.
    pub rates: Seq<((Currency, Currency), T)>,
    /// The known instruments, each with its market.
    pub securities: Map<SymbolId, String>,
    pub mode: RunMode,
}

/// The market data manager.
#[verifier::reject_recursive_types(T)]
#[verifier::reject_recursive_types(D)]
pub struct DataManager<T: DataNumberType, D: DataFeed<NumberType = T>> {
    securities: Table<SecuritySymbol, String>,
    fxmanager: FXManager<T>,
    feeds: Vec<D>,
    queue: Vec<DataPoint<T>>,
    mode: RunMode,
}

impl<T: DataNumberType, D: DataFeed<NumberType = T>> View for DataManager<T, D> {
    type V = ManagerState<T, D>;

    closed spec fn view(&self) -> ManagerState<T, D> {
        ManagerState {
            feeds: self.feeds@,
            queue: self.queue@,
            rates: self.fxmanager.entries(),
            securities: self.securities@,
            mode: self.mode,
        }
    }
}

impl<T: DataNumberType, D: DataFeed<NumberType = T>> DataManager<T, D> {
    /// The rate cache, as a specification.
    pub closed spec fn rate_cache(&self) -> FXManager<T> {
        self.fxmanager
    }

    /// A manager without feeds.
    pub fn new(mode: RunMode) -> (r: Self)
        ensures
            r@ == (ManagerState::<T, D> {
                feeds: Seq::empty(),
                queue: Seq::empty(),
                rates: Seq::empty(),
                securities: Map::empty(),
                mode,
            }),
    {
        DataManager {
            securities: Table::new(),
            fxmanager: FXManager::new(),
            feeds: Vec::new(),
            queue: Vec::new(),
            mode,
        }
    }

    /// Adds a feed behind the others.
    pub fn add_feed(&mut self, datafeed: D)
        ensures
            final(self)@ == (ManagerState { feeds: old(self)@.feeds.push(datafeed), ..old(self)@ }),
    {
        self.feeds.push(datafeed);
    }

    /// Asks every feed, in their order, to send the points that are due at
    /// the time `now`. The first error of a feed ends the round and is
    /// handed on; what the queue holds then depends on the feed that failed.
    pub fn feeds_send_backtest(&mut self, now: i64) -> (r: Result<(), DataError>)
        ensures
            final(self)@.feeds.len() == old(self)@.feeds.len(),
            final(self)@.rates == old(self)@.rates,
            final(self)@.securities == old(self)@.securities,
            final(self)@.mode == old(self)@.mode,
            r is Ok ==> final(self)@.queue == old(self)@.queue + all_due(
                old(self)@.feeds,
                now,
                old(self)@.feeds.len() as int,
            ),
            r is Ok ==> forall|i: int|
                0 <= i < old(self)@.feeds.len() ==> (#[trigger] old(self)@.feeds[i]).sent(
                    now,
                    final(self)@.feeds[i],
                ),
            r is Err ==> stopped_at_a_feed(old(self)@.feeds, now, final(self)@.feeds),
    {
        let ghost before = self@;
        let n = self.feeds.len();
        let mut i: usize = 0;
        while i < n
            invariant
                i <= n,
                before == old(self)@,
                n == before.feeds.len(),
                self@.feeds.len() == n,
                self@.rates == before.rates,
                self@.securities == before.securities,
                self@.mode == before.mode,
                self@.queue == before.queue + all_due(before.feeds, now, i as int),
                forall|j: int| 0 <= j < i ==> (#[trigger] before.feeds[j]).sent(now, self@.feeds[j]),
                forall|j: int| i <= j < n ==> #[trigger] self@.feeds[j] == before.feeds[j],
            decreases n - i,
        {
            let ghost queue = self.queue@;
            match self.feeds[i].send_backtest(now, &mut self.queue) {
                Ok(_) => {
                },
                Err(e) => {
                    proof {
                        assert(stopped_at(before.feeds, now, self@.feeds, i as int));
                    }
                    return Err(e);
                },
            }
            i += 1;
        }
        Ok(())
    }

    /// Builds the slice of the clock's current interval from the points in
    /// the queue, and empties the queue.
    ///
    /// A point's bar goes into the slice where the point's time is after the
    /// start of the period and not after the clock's time. Every point,
    /// whatever its time, is handed on to the end of `sink` in the order of
    /// the queue, and the rate of every point of a currency pair is stored in
    /// the rate cache.
    pub fn get_slice(&mut self, time: &TimeSync, sink: &mut Vec<DataPoint<T>>) -> (slice: Slice<T>)
        ensures
            slice.end_time() == time.now(),
            slice.bars() == window_bars(old(self)@.queue, time.period_start(), time.now()),
            final(sink)@ == old(sink)@ + old(self)@.queue,
            final(self)@ == (ManagerState {
                queue: Seq::empty(),
                rates: rates_after(old(self)@.rates, old(self)@.queue),
                ..old(self)@
            }),
    {
        let now = time.get_time();
        let start = time.period_start();
        let mut slice: Slice<T> = Slice::new(now);
        let mut points: Vec<DataPoint<T>> = Vec::new();
        core::mem::swap(&mut self.queue, &mut points);
        let ghost before = old(self)@;
        let ghost sink_before = sink@;
        let mut i: usize = 0;
        while i < points.len()
            invariant
                i <= points@.len(),
                points@ == before.queue,
                slice.end_time() == now,
                slice.bars() == window_bars(points@.take(i as int), start, now),
                sink@ == sink_before + points@.take(i as int),
                self@ == (ManagerState {
                    queue: Seq::empty(),
                    rates: rates_after(before.rates, points@.take(i as int)),
                    ..before
                }),
            decreases points@.len() - i,
        {
            let val = points[i].clone();
            proof {
                assert(points@.take(i + 1).drop_last() =~= points@.take(i as int));
            }
            if val.time > start && val.time <= now {
                slice.add_datapoint(val.clone());
            }
            match &val.symbol {
                SecuritySymbol::FX(base, foreign) => {
                    match val.data.get_spot() {
                        Some(x) => {
                            self.fxmanager.update(*base, *foreign, x);
                        },
                        None => {},
                    }
                },
                SecuritySymbol::Equity(_) => {},
            }
            sink.push(val);
            i += 1;
        }
        proof {
            assert(points@.take(i as int) =~= points@);
        }
        slice
    }

    /// Whether every feed has nothing left to send.
    pub fn is_finished(&self) -> (r: bool)
        ensures
            r == forall|i: int| 0 <= i < self@.feeds.len() ==> (#[trigger] self@.feeds[i]).finished(),
    {
        let mut i: usize = 0;
        while i < self.feeds.len()
            invariant
                i <= self.feeds@.len(),
                forall|j: int| 0 <= j < i ==> (#[trigger] self.feeds@[j]).finished(),
            decreases self.feeds@.len() - i,
        {
            if !self.feeds[i].is_finished() {
                assert(!self@.feeds[i as int].finished());
                return false;
            }
            i += 1;
        }
        true
    }

    /// Whether an instrument is known to the manager.
    pub fn symbol_exists(&self, symbol: SecuritySymbol) -> (r: bool)
        ensures
            r == self@.securities.contains_key(symbol@),
    {
        self.securities.contains_key(&symbol)
    }

    /// The exchange rate cache.
    pub fn get_fx_manager(&self) -> (r: &FXManager<T>)
        ensures
            r.entries() == self@.rates,
            *r == self.rate_cache(),
    {
        &self.fxmanager
    }

    /// The run mode.
    pub fn get_mode(&self) -> (r: RunMode)
        ensures
            r == self@.mode,
    {
        self.mode
    }

    /// The feeds, in the order in which they were added.
    pub fn get_feeds(&self) -> (r: &Vec<D>)
        ensures
            r@ == self@.feeds,
    {
        &self.feeds
    }
}

} // verus!
