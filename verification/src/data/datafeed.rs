//! Data feeds: sources of data points in time order, and the feed that is
//! loaded with the rows of one file.

use vstd::prelude::*;
use crate::DataNumberType;
use crate::data::DataPoint;
use crate::data::Resolution;
use crate::data::error::DataError;
use crate::rtengine::RunMode;
use crate::security::SecuritySymbol;

verus! {

/// A source of data points. In a back test it is asked once per cycle to send
/// every point that is due at the clock's time.
pub trait DataFeed: Sized {
    type NumberType: DataNumberType;

    /// The instruments of the feed, each with its market.
    spec fn symbols(&self) -> Vec<(SecuritySymbol, String)>;

    /// How many points the feed sends when asked at the time `now`.
    spec fn due_len(&self, now: i64) -> usize;

    /// The point at a place among those that the feed sends when asked at the
    /// time `now`, the first at place 0.
    spec fn due_at(&self, now: i64, i: usize) -> DataPoint<Self::NumberType>;

    /// Whether `after` is this feed once it has sent what was due at the time
    /// `now`.
    spec fn sent(&self, now: i64, after: Self) -> bool;

    /// Whether the feed has nothing left to send.
    spec fn finished(&self) -> bool;

    fn get_symbols(&self) -> (r: &Vec<(SecuritySymbol, String)>)
        ensures
            *r == self.symbols(),
    ;

    /// Sends every point that is due at the time `now` to the end of the
    /// sink, in the order of their places.
    fn send_backtest(&mut self, now: i64, sink: &mut Vec<DataPoint<Self::NumberType>>) -> (r:
        Result<(), DataError>)
        ensures
            r is Ok ==> old(self).sent(now, *final(self)) && final(sink)@ == old(sink)@ + Seq::new(
                old(self).due_len(now) as nat,
                |i: int| old(self).due_at(now, i as usize),
            ),
    ;

    fn is_finished(&self) -> (r: bool)
        ensures
            r == self.finished(),
    ;
}

/// The points that a feed sends when asked at the time `now`, first to last.
pub open spec fn due<D: DataFeed>(feed: D, now: i64) -> Seq<DataPoint<D::NumberType>> {
    Seq::new(feed.due_len(now) as nat, |i: int| feed.due_at(now, i as usize))
}

/// What builds a data feed once the engine has told it how it runs.
pub trait DataFeedBuilder: Sized {
    type Output;

    type NumberType: DataNumberType;

    fn build(self) -> Result<Self::Output, DataError>;

    fn with_mode(self, mode: RunMode) -> Self;

    fn get_symbols(&self) -> &Vec<(SecuritySymbol, String)>;
}

/// How many points at the end of a sequence are due at the time `now`: the
/// points are taken from the end for as long as they are not later than
/// `now`.
pub open spec fn due_count<T: DataNumberType>(data: Seq<DataPoint<T>>, now: i64) -> nat
    decreases data.len(),
{
    if data.len() == 0 {
        0
    } else if data.last().time <= now {
        1 + due_count(data.drop_last(), now)
    } else {
        0
    }
}

/// The points of a sequence that are due at the time `now`, from the last one
/// backwards.
pub open spec fn due_points<T: DataNumberType>(data: Seq<DataPoint<T>>, now: i64) -> Seq<
    DataPoint<T>,
> {
    Seq::new(due_count(data, now), |i: int| data[data.len() - 1 - i])
}

/// No more points are due than there are.
pub proof fn lemma_due_count_bound<T: DataNumberType>(data: Seq<DataPoint<T>>, now: i64)
    ensures
        due_count(data, now) <= data.len(),
    decreases data.len(),
{
    if data.len() > 0 && data.last().time <= now {
        lemma_due_count_bound(data.drop_last(), now);
    }
}

/// A feed that holds the rows of one file as data points, the earliest last,
/// and sends them from the end.
pub struct CSVDataFeed<T: DataNumberType> {
    path: String,
    symbols: Vec<(SecuritySymbol, String)>,
    data: Vec<DataPoint<T>>,
    resolution: Resolution,
    mode: RunMode,
}

impl<T: DataNumberType> CSVDataFeed<T> {
    /// The points that are left, the next one to be sent last.
    pub closed spec fn data(&self) -> Seq<DataPoint<T>> {
        self.data@
    }

    /// The file's path, as a specification.
    pub closed spec fn path(&self) -> Seq<char> {
        self.path@
    }

    /// The resolution of the feed, as a specification.
    pub closed spec fn resolution(&self) -> Resolution {
        self.resolution
    }

    /// The run mode of the feed, as a specification.
    pub closed spec fn mode(&self) -> RunMode {
        self.mode
    }

    /// The file's path.
    pub fn get_path(&self) -> (r: &String)
        ensures
            r@ == self.path(),
    {
        &self.path
    }

    /// The resolution of the feed.
    pub fn get_resolution(&self) -> (r: Resolution)
        ensures
            r == self.resolution(),
    {
        self.resolution
    }

    /// Whether the points stand as they are sent: from the end. They do
    /// unless the first is earlier than the last.
    pub open spec fn orientated(data: Seq<DataPoint<T>>) -> bool {
        !(data.len() > 0 && data.first().time < data.last().time)
    }

    /// Whether the points stand as they are sent: from the end.
    pub fn is_orientated_correctly(&self) -> (r: bool)
        ensures
            r == Self::orientated(self.data()),
    {
        let n = self.data.len();
        if n > 0 {
            if self.data[0].time < self.data[n - 1].time {
                return false;
            }
        }
        true
    }

    /// Turns the points round, the last becoming the first.
    pub fn reverse_data(&mut self)
        ensures
            final(self).data() == old(self).data().reverse(),
            final(self).path() == old(self).path(),
            final(self).resolution() == old(self).resolution(),
            final(self).mode() == old(self).mode(),
            final(self).symbols() == old(self).symbols(),
    {
        let ghost before = self.data@;
        let mut turned: Vec<DataPoint<T>> = Vec::new();
        while self.data.len() > 0
            invariant
                self.data@.len() + turned@.len() == before.len(),
                self.data@ == before.take(self.data@.len() as int),
                forall|j: int|
                    0 <= j < turned@.len() ==> #[trigger] turned@[j] == before[before.len() - 1
                        - j],
                self.path@ == old(self).path@,
                self.resolution == old(self).resolution,
                self.mode == old(self).mode,
                self.symbols == old(self).symbols,
            decreases self.data@.len(),
        {
            let ghost held = self.data@;
            let point = self.data.pop().unwrap();
            turned.push(point);
        }
        self.data = turned;
    }

    /// Takes the rows of the file, in the file's order, behind the points
    /// already held, and turns all of them round where the first is earlier
    /// than the last.
    pub fn connect(&mut self, rows: Vec<DataPoint<T>>, mode: RunMode) -> (r: Result<(), DataError>)
        ensures
            r is Ok,
            final(self).data() == (if Self::orientated(old(self).data() + rows@) {
                old(self).data() + rows@
            } else {
                (old(self).data() + rows@).reverse()
            }),
            final(self).path() == old(self).path(),
            final(self).resolution() == old(self).resolution(),
            final(self).mode() == old(self).mode(),
            final(self).symbols() == old(self).symbols(),
    {
        let mut rows = rows;
        self.data.append(&mut rows);
        if !self.is_orientated_correctly() {
            self.reverse_data();
        }
        Ok(())
    }
}

impl<T: DataNumberType> DataFeed for CSVDataFeed<T> {
    type NumberType = T;

    closed spec fn symbols(&self) -> Vec<(SecuritySymbol, String)> {
        self.symbols
    }

    open spec fn due_len(&self, now: i64) -> usize {
        due_count(self.data(), now) as usize
    }

    open spec fn due_at(&self, now: i64, i: usize) -> DataPoint<T> {
        self.data()[self.data().len() - 1 - i]
    }

    /// The points that were due are gone from the end; nothing else changed.
    open spec fn sent(&self, now: i64, after: Self) -> bool {
        &&& after.data() == self.data().take(self.data().len() - due_count(self.data(), now))
        &&& after.path() == self.path()
        &&& after.resolution() == self.resolution()
        &&& after.mode() == self.mode()
        &&& after.symbols() == self.symbols()
    }

    open spec fn finished(&self) -> bool {
        self.data().len() == 0
    }

    fn get_symbols(&self) -> (r: &Vec<(SecuritySymbol, String)>) {
        &self.symbols
    }

    /// Sends the points at the end that are not later than `now`, the last
    /// one first. This feed never fails.
    fn send_backtest(&mut self, now: i64, sink: &mut Vec<DataPoint<T>>) -> (r: Result<
        (),
        DataError,
    >)
        ensures
            r is Ok,
    {
        let ghost before = self.data@;
        let ghost sink_before = sink@;
        let held = self.data.len();
        while self.data.len() > 0 && self.data[self.data.len() - 1].time <= now
            invariant
                held == before.len(),
                before == old(self).data@,
                self.data@.len() <= before.len(),
                self.data@ == before.take(self.data@.len() as int),
                due_count(before, now) == before.len() - self.data@.len() + due_count(
                    self.data@,
                    now,
                ),
                sink@.len() == sink_before.len() + before.len() - self.data@.len(),
                forall|j: int| 0 <= j < sink_before.len() ==> #[trigger] sink@[j] == sink_before[j],
                forall|j: int|
                    sink_before.len() <= j < sink@.len() ==> #[trigger] sink@[j] == before[before.len()
                        - 1 - (j - sink_before.len())],
                self.path@ == old(self).path@,
                self.resolution == old(self).resolution,
                self.mode == old(self).mode,
                self.symbols == old(self).symbols,
            decreases self.data@.len(),
        {
            let point = self.data.pop().unwrap();
            sink.push(point);
        }
        proof {
            lemma_due_count_bound(before, now);
            let count = due_count(before, now);
            let sent = Seq::new(
                old(self).due_len(now) as nat,
                |i: int| old(self).due_at(now, i as usize),
            );
            assert(count == before.len() - self.data@.len());
            assert(old(self).due_len(now) == count);
            assert forall|j: int| 0 <= j < count implies sent[j] == before[before.len() - 1 - j] by {
                assert(j as usize == j);
            }
            assert(sink@ =~= sink_before + sent);
        }
        Ok(())
    }

    fn is_finished(&self) -> (r: bool) {
        self.data.is_empty()
    }
}

/// Builds a [`CSVDataFeed`] for one instrument.
pub struct CSVDataFeedBuilder<T: DataNumberType> {
    path: String,
    symbols: Vec<(SecuritySymbol, String)>,
    data: Vec<DataPoint<T>>,
    resolution: Resolution,
    mode: Option<RunMode>,
}

impl<T: DataNumberType> CSVDataFeedBuilder<T> {
    /// The path given so far, as a specification.
    pub closed spec fn path(&self) -> Seq<char> {
        self.path@
    }

    /// The instruments, each with its market, as a specification.
    pub closed spec fn spec_symbols(&self) -> Seq<(SecuritySymbol, String)> {
        self.symbols@
    }

    /// The resolution, as a specification.
    pub closed spec fn resolution(&self) -> Resolution {
        self.resolution
    }

    /// The run mode, where one was given, as a specification.
    pub closed spec fn mode(&self) -> Option<RunMode> {
        self.mode
    }

    /// The points given so far, as a specification.
    pub closed spec fn data(&self) -> Seq<DataPoint<T>> {
        self.data@
    }

    /// A builder for a feed of one instrument on one market, without a path
    /// or a run mode yet.
    pub fn new(symbol: SecuritySymbol, market: &str, resolution: Resolution) -> (r: Self)
        ensures
            r.path() == Seq::<char>::empty(),
            r.spec_symbols().len() == 1,
            r.spec_symbols()[0].0 == symbol,
            r.spec_symbols()[0].1@ == market@,
            r.resolution() == resolution,
            r.mode() is None,
            r.data() == Seq::<DataPoint<T>>::empty(),
    {
        let mut symbol_vec: Vec<(SecuritySymbol, String)> = Vec::new();
        symbol_vec.push((symbol, String::from_str(market)));
        CSVDataFeedBuilder {
            path: String::new(),
            symbols: symbol_vec,
            data: Vec::new(),
            resolution,
            mode: None,
        }
    }

    /// Adds to the path of the file.
    pub fn with_path(self, path: &str) -> (r: Self)
        ensures
            r.path() == self.path() + path@,
            r.spec_symbols() == self.spec_symbols(),
            r.resolution() == self.resolution(),
            r.mode() == self.mode(),
            r.data() == self.data(),
    {
        let mut tmp = self.path;
        tmp.append(path);
        CSVDataFeedBuilder {
            path: tmp,
            symbols: self.symbols,
            data: self.data,
            resolution: self.resolution,
            mode: self.mode,
        }
    }

    /// Sets the resolution.
    pub fn with_resolution(self, resolution: Resolution) -> (r: Self)
        ensures
            r.path() == self.path(),
            r.spec_symbols() == self.spec_symbols(),
            r.resolution() == resolution,
            r.mode() == self.mode(),
            r.data() == self.data(),
    {
        CSVDataFeedBuilder {
            path: self.path,
            symbols: self.symbols,
            data: self.data,
            resolution,
            mode: self.mode,
        }
    }
}

impl<T: DataNumberType> DataFeedBuilder for CSVDataFeedBuilder<T> {
    type Output = CSVDataFeed<T>;

    type NumberType = T;

    /// The feed, or `IncompleteDataFeedBuilder` where no run mode was set.
    fn build(self) -> (r: Result<CSVDataFeed<T>, DataError>)
        ensures
            r is Ok <==> self.mode() is Some,
            r matches Ok(feed) ==> feed.path() == self.path() && feed.symbols()@
                == self.spec_symbols() && feed.data() == self.data() && feed.resolution()
                == self.resolution() && Some(feed.mode()) == self.mode(),
            r matches Err(e) ==> e matches DataError::IncompleteDataFeedBuilder(m) && m@
                == "Data feed must have a run mode set"@,
    {
        match self.mode {
            Some(mode) => Ok(
                CSVDataFeed {
                    path: self.path,
                    symbols: self.symbols,
                    data: self.data,
                    resolution: self.resolution,
                    mode,
                },
            ),
            None => Err(
                DataError::IncompleteDataFeedBuilder(
                    String::from_str("Data feed must have a run mode set"),
                ),
            ),
        }
    }

    /// Sets the run mode.
    fn with_mode(self, mode: RunMode) -> (r: Self)
        ensures
            r.path() == self.path(),
            r.spec_symbols() == self.spec_symbols(),
            r.resolution() == self.resolution(),
            r.mode() == Some(mode),
            r.data() == self.data(),
    {
        CSVDataFeedBuilder {
            path: self.path,
            symbols: self.symbols,
            data: self.data,
            resolution: self.resolution,
            mode: Some(mode),
        }
    }

    fn get_symbols(&self) -> (r: &Vec<(SecuritySymbol, String)>)
        ensures
            r@ == self.spec_symbols(),
    {
        &self.symbols
    }
}

} // verus!
