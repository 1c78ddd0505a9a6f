//! The engine that drives a run, cycle by cycle.

use vstd::prelude::*;
use core::marker::PhantomData;
use crate::NumberType;
use crate::DataNumberType;
use crate::PortfolioNumberType;
use crate::algorithm::Algo;
use crate::broker::BacktestingBroker;
use crate::broker::BrokerState;
use crate::broker::broker_cycle;
use crate::broker::fill::engine::EngineState;
use crate::broker::orders::FilledOrder;
use crate::broker::orders::MarketOrder;
use crate::broker::orders::OrderError;
use crate::broker::orders::OrderType;
use crate::broker::orders::Side;
use crate::broker::slippage::SlippageModel;
use crate::data::DataPoint;
use crate::data::DataSymbolProperties;
use crate::data::Resolution;
use crate::data::datafeed::DataFeed;
use crate::data::datamanger::DataManager;
use crate::data::datamanger::ManagerState;
use crate::data::datamanger::all_due;
use crate::data::datamanger::rates_after;
use crate::data::datamanger::stopped_at_a_feed;
use crate::data::datamanger::window_bars;
use crate::data::error::DataError;
use crate::data::properties_of;
use crate::data::select_symbol_properties;
use crate::data::slice::Slice;
use crate::data::tradebars::TradeBar;
use crate::error::Error;
use crate::portfolio::Holding;
use crate::portfolio::LedgerState;
use crate::portfolio::Portfolio;
use crate::security::Currency;
use crate::security::Security;
use crate::security::SecuritySymbol;
use crate::security::SymbolId;
use crate::table::Table;
use crate::table::entries_insert;
use crate::time::TimeSync;

verus! {

/// How the engine runs. Only a back test drives the simulation loop.
#[derive(Debug, Clone, Copy, PartialEq, Eq, Structural)]
pub enum RunMode {
    LiveTrade,
    PaperTrade,
    BackTest,
    UnitTest,
}

/// What a strategy's handle holds, as values.
#[verifier::reject_recursive_types(T)]
#[verifier::reject_recursive_types(U)]
pub ghost struct HandleState<
    T: DataNumberType + PortfolioNumberType,
    U: SlippageModel<NumberType = T>,
> {
    pub ledger: LedgerState<T>,
    pub broker: BrokerState<T, U>,
    /// The clock's time in the current cycle.
    pub now: i64,
}

/// What a strategy sees of the engine: the time, the portfolio and the
/// broker.
#[verifier::reject_recursive_types(T)]
#[verifier::reject_recursive_types(U)]
pub struct EngineHandle<T: DataNumberType + PortfolioNumberType, U: SlippageModel<NumberType = T>> {
    portfolio: Portfolio<T>,
    broker: BacktestingBroker<T, U>,
    now: i64,
}

impl<T: DataNumberType + PortfolioNumberType, U: SlippageModel<NumberType = T>> View for EngineHandle<
    T,
    U,
> {
    type V = HandleState<T, U>;

    closed spec fn view(&self) -> HandleState<T, U> {
        HandleState { ledger: self.portfolio@, broker: self.broker@, now: self.now }
    }
}

impl<T: DataNumberType + PortfolioNumberType, U: SlippageModel<NumberType = T>> EngineHandle<T, U> {
    /// The portfolio, as a specification.
    pub closed spec fn spec_portfolio(&self) -> Portfolio<T> {
        self.portfolio
    }

    /// The clock's time in the current cycle.
    pub fn get_time(&self) -> (r: i64)
        ensures
            r == self@.now,
    {
        self.now
    }

    /// The portfolio.
    pub fn get_portfolio(&self) -> (r: &Portfolio<T>)
        ensures
            r@ == self@.ledger,
            *r == self.spec_portfolio(),
    {
        &self.portfolio
    }

    /// The latest outcome of every order, in the order in which the order ids
    /// first came.
    pub fn get_filled_orders(&self) -> (r: Vec<Result<FilledOrder<T>, OrderError<T>>>)
        ensures
            r@.len() == self.spec_portfolio().history_table().entries().len(),
            forall|i: int|
                0 <= i < r@.len() ==> #[trigger] r@[i]
                    == self.spec_portfolio().history_table().entries()[i].1,
    {
        let history = self.portfolio.get_filled_orders();
        let n = history.len();
        let mut out: Vec<Result<FilledOrder<T>, OrderError<T>>> = Vec::new();
        let mut i: usize = 0;
        while i < n
            invariant
                i <= n,
                n == history.entries().len(),
                out@.len() == i,
                forall|j: int| 0 <= j < i ==> #[trigger] out@[j] == history.entries()[j].1,
            decreases n - i,
        {
            let outcome = match history.value_at(i) {
                Ok(filled) => Ok(filled.clone()),
                Err(e) => Err(e.clone()),
            };
            out.push(outcome);
            i += 1;
        }
        out
    }

    /// Submits a market order for `volume` units, placed at the current time.
    /// The order carries the id `Order`; it is first considered in the next
    /// cycle, and what becomes of it shows in the history only.
    pub fn submit_market_order(&mut self, symbol: SecuritySymbol, volume: T, side: Side) -> (r:
        Result<(), Error>)
        ensures
            r is Ok,
            final(self)@.ledger == old(self)@.ledger,
            final(self)@.now == old(self)@.now,
            exists|order: MarketOrder<T>|
                ({
                    &&& order.id@ == "Order"@
                    &&& order.symbol == symbol
                    &&& order.timestamp == old(self)@.now
                    &&& order.volume == volume
                    &&& order.side == side
                    &&& #[trigger] submitted(old(self)@.broker, order, final(self)@.broker)
                }),
    {
        let order = MarketOrder::new("Order", symbol, self.now, volume, side);
        let ghost witness = order;
        self.broker.submit_order(OrderType::MarketOrder(order));
        proof {
            assert(submitted(old(self)@.broker, witness, self@.broker));
        }
        Ok(())
    }

    /// Sets the balance of a currency.
    pub fn set_cash(&mut self, currency: Currency, cash: T)
        ensures
            final(self)@ == (HandleState {
                ledger: LedgerState {
                    cash: old(self)@.ledger.cash.insert(currency, cash),
                    ..old(self)@.ledger
                },
                ..old(self)@
            }),
    {
        self.portfolio.set_cash(currency, cash)
    }

    /// The balance of a currency.
    pub fn cash_balance(&self, currency: Currency) -> (r: Option<T>)
        ensures
            r == (if self@.ledger.cash.contains_key(currency) {
                Some(self@.ledger.cash[currency])
            } else {
                None
            }),
    {
        match self.portfolio.get_cash(currency) {
            Some(x) => Some(*x),
            None => None,
        }
    }

    /// The holding of an instrument.
    pub fn get_holding(&self, symbol: SecuritySymbol) -> (r: Option<Holding<T>>)
        ensures
            r == (if self@.ledger.holdings.contains_key(symbol@) {
                Some(self@.ledger.holdings[symbol@])
            } else {
                None
            }),
    {
        self.portfolio.get_holding(symbol)
    }

    /// The orders that were submitted and have no outcome yet, by id.
    pub fn get_open_orders(&self) -> (r: &Table<String, OrderType<T>>)
        ensures
            r.entries() == self@.broker.open,
    {
        self.broker.get_open_orders()
    }

    /// Registers an instrument's details with the portfolio.
    pub fn register_custom_security(&mut self, symbol: SecuritySymbol, details: Security<T>)
        ensures
            final(self)@ == (HandleState {
                ledger: LedgerState {
                    registered: old(self)@.ledger.registered.insert(symbol@, details),
                    ..old(self)@.ledger
                },
                ..old(self)@
            }),
    {
        self.portfolio.register_security(symbol, details)
    }
}

/// Whether `after` is the broker `before` once a market order was submitted.
pub open spec fn submitted<T: DataNumberType + PortfolioNumberType, U: SlippageModel<NumberType = T>>(
    before: BrokerState<T, U>,
    order: MarketOrder<T>,
    after: BrokerState<T, U>,
) -> bool {
    after == (BrokerState {
        engine: EngineState {
            inbox: before.engine.inbox.push(
                crate::broker::BrokerMessage::SubmitOrder(OrderType::MarketOrder(order)),
            ),
            ..before.engine
        },
        open: entries_insert(before.open, order.id, OrderType::MarketOrder(order)),
    })
}

/// Whether the database can supply every one of the first `n` instruments
/// that is not registered yet.
pub open spec fn can_register<T: NumberType>(
    registered: Map<SymbolId, Security<T>>,
    symbols: Seq<(SecuritySymbol, String)>,
    database: Seq<DataSymbolProperties<T>>,
    n: int,
) -> bool {
    forall|i: int|
        0 <= i < n ==> registered.contains_key((#[trigger] symbols[i]).0@) || properties_of(
            database,
            symbols[i].0,
            symbols[i].1@,
        ) is Some
}

/// The registered instruments after the first `n` instruments of a feed were
/// registered from the database, each one that was not known by then.
pub open spec fn registered_after<T: NumberType>(
    registered: Map<SymbolId, Security<T>>,
    symbols: Seq<(SecuritySymbol, String)>,
    database: Seq<DataSymbolProperties<T>>,
    n: int,
) -> Map<SymbolId, Security<T>>
    decreases n,
{
    if n <= 0 {
        registered
    } else {
        let before = registered_after(registered, symbols, database, n - 1);
        let symbol = symbols[n - 1].0;
        if before.contains_key(symbol@) {
            before
        } else {
            match properties_of(database, symbol, symbols[n - 1].1@) {
                Some(i) => before.insert(symbol@, database[i].spec_to_security()),
                None => before,
            }
        }
    }
}

/// What can be registered as a whole can be registered one by one.
pub proof fn lemma_can_register_each<T: NumberType>(
    registered: Map<SymbolId, Security<T>>,
    symbols: Seq<(SecuritySymbol, String)>,
    database: Seq<DataSymbolProperties<T>>,
    n: int,
    i: int,
)
    requires
        can_register(registered, symbols, database, n),
        0 <= i < n,
    ensures
        registered.contains_key(symbols[i].0@) || properties_of(
            database,
            symbols[i].0,
            symbols[i].1@,
        ) is Some,
{
}

/// What can be registered up to an instrument that is known or has a row can
/// be registered up to the next.
pub proof fn lemma_can_register_more<T: NumberType>(
    registered: Map<SymbolId, Security<T>>,
    symbols: Seq<(SecuritySymbol, String)>,
    database: Seq<DataSymbolProperties<T>>,
    n: int,
)
    requires
        can_register(registered, symbols, database, n),
        registered.contains_key(symbols[n].0@) || properties_of(
            database,
            symbols[n].0,
            symbols[n].1@,
        ) is Some,
    ensures
        can_register(registered, symbols, database, n + 1),
{
}

/// Registering instruments takes none away.
pub proof fn lemma_registered_grows<T: NumberType>(
    registered: Map<SymbolId, Security<T>>,
    symbols: Seq<(SecuritySymbol, String)>,
    database: Seq<DataSymbolProperties<T>>,
    n: int,
    id: SymbolId,
)
    requires
        registered.contains_key(id),
    ensures
        registered_after(registered, symbols, database, n).contains_key(id),
    decreases n,
{
    if n > 0 {
        lemma_registered_grows(registered, symbols, database, n - 1, id);
    }
}

/// What an engine holds, as values.
#[verifier::reject_recursive_types(T)]
#[verifier::reject_recursive_types(U)]
#[verifier::reject_recursive_types(D)]
pub ghost struct EngineView<
    T: DataNumberType + PortfolioNumberType,
    U: SlippageModel<NumberType = T>,
    D: DataFeed<NumberType = T>,
> {
    pub manager: ManagerState<T, D>,
    pub handle: HandleState<T, U>,
    pub clock: TimeSync,
    pub mode: RunMode,
}

/// The points that the slice of a cycle is built from: what waited in the
/// manager's queue, and behind it what the feeds send at the clock's time.
pub open spec fn cycle_points<
    T: DataNumberType + PortfolioNumberType,
    U: SlippageModel<NumberType = T>,
    D: DataFeed<NumberType = T>,
>(before: EngineView<T, U, D>) -> Seq<DataPoint<T>> {
    before.manager.queue + all_due(
        before.manager.feeds,
        before.clock.now(),
        before.manager.feeds.len() as int,
    )
}

/// The bars of the slice of a cycle.
pub open spec fn cycle_bars<
    T: DataNumberType + PortfolioNumberType,
    U: SlippageModel<NumberType = T>,
    D: DataFeed<NumberType = T>,
>(before: EngineView<T, U, D>) -> Map<SymbolId, TradeBar<T>> {
    window_bars(cycle_points(before), before.clock.period_start(), before.clock.now())
}

/// What the data side of a cycle does to the manager: every feed has sent
/// what was due, the queue is empty, and the rates that the points show are
/// stored.
pub open spec fn manager_cycles<
    T: DataNumberType + PortfolioNumberType,
    U: SlippageModel<NumberType = T>,
    D: DataFeed<NumberType = T>,
>(before: EngineView<T, U, D>, after: ManagerState<T, D>) -> bool {
    &&& after.feeds.len() == before.manager.feeds.len()
    &&& forall|i: int|
        0 <= i < before.manager.feeds.len() ==> (#[trigger] before.manager.feeds[i]).sent(
            before.clock.now(),
            after.feeds[i],
        )
    &&& after.queue == Seq::<DataPoint<T>>::empty()
    &&& after.rates == rates_after(before.manager.rates, cycle_points(before))
    &&& after.securities == before.manager.securities
    &&& after.mode == before.manager.mode
}

/// What a cycle does before the strategy is called: the feeds send what is
/// due, the slice is built, every point is handed on to the fill engine, and
/// the broker runs its cycle at the clock's time. The clock stands still.
pub open spec fn cycle_begins<
    T: DataNumberType + PortfolioNumberType,
    U: SlippageModel<NumberType = T>,
    D: DataFeed<NumberType = T>,
>(before: EngineView<T, U, D>, after: EngineView<T, U, D>) -> bool {
    &&& after.clock == before.clock
    &&& after.mode == before.mode
    &&& manager_cycles(before, after.manager)
    &&& after.handle.now == before.clock.now()
    &&& broker_cycle(
        BrokerState {
            engine: EngineState {
                intake: before.handle.broker.engine.intake + cycle_points(before),
                ..before.handle.broker.engine
            },
            ..before.handle.broker
        },
        before.handle.ledger,
        before.clock.now(),
        after.handle.broker,
        after.handle.ledger,
    )
}

/// What a cycle does that ends with the error of a feed: the feeds before
/// the one that failed have sent what was due, and nothing else has moved:
/// no slice was built, no order matched, and the clock stands still.
pub open spec fn cycle_fails<
    T: DataNumberType + PortfolioNumberType,
    U: SlippageModel<NumberType = T>,
    D: DataFeed<NumberType = T>,
>(before: EngineView<T, U, D>, after: EngineView<T, U, D>) -> bool {
    &&& after.clock == before.clock
    &&& after.mode == before.mode
    &&& after.handle == (HandleState { now: before.clock.now(), ..before.handle })
    &&& stopped_at_a_feed(before.manager.feeds, before.clock.now(), after.manager.feeds)
    &&& after.manager.rates == before.manager.rates
    &&& after.manager.securities == before.manager.securities
    &&& after.manager.mode == before.manager.mode
}

/// What a whole cycle does. Data, matching and ledger move as
/// [`cycle_begins`] says; then the strategy is called where the slice holds
/// data, and the clock is updated. The strategy may do to portfolio and
/// broker what the handle lets it do; where the slice holds no data they are
/// left as the first part of the cycle left them.
pub open spec fn cycle_runs<
    T: DataNumberType + PortfolioNumberType,
    U: SlippageModel<NumberType = T>,
    D: DataFeed<NumberType = T>,
>(before: EngineView<T, U, D>, after: EngineView<T, U, D>) -> bool {
    exists|mid: EngineView<T, U, D>|
        ({
            &&& #[trigger] cycle_begins(before, mid)
            &&& after.manager == mid.manager
            &&& after.mode == mid.mode
            &&& mid.clock.ticked(mid.mode, after.clock)
            &&& after.handle.now == after.clock.now()
            &&& cycle_bars(before) == Map::<SymbolId, TradeBar<T>>::empty() ==> after.handle.ledger
                == mid.handle.ledger && after.handle.broker == mid.handle.broker
        })
}

/// The engine: the market data manager, the portfolio and the broker behind
/// the strategy's handle, the strategy, and the clock.
#[verifier::reject_recursive_types(A)]
#[verifier::reject_recursive_types(T)]
#[verifier::reject_recursive_types(U)]
#[verifier::reject_recursive_types(D)]
pub struct RTEngine<
    A: Algo<NumberType = T, Slippage = U>,
    T: DataNumberType + PortfolioNumberType,
    U: SlippageModel<NumberType = T>,
    D: DataFeed<NumberType = T>,
> {
    data_manager: DataManager<T, D>,
    handle: EngineHandle<T, U>,
    algo: A,
    time: TimeSync,
    mode: RunMode,
}

impl<
    A: Algo<NumberType = T, Slippage = U>,
    T: DataNumberType + PortfolioNumberType,
    U: SlippageModel<NumberType = T>,
    D: DataFeed<NumberType = T>,
> View for RTEngine<A, T, U, D> {
    type V = EngineView<T, U, D>;

    closed spec fn view(&self) -> EngineView<T, U, D> {
        EngineView {
            manager: self.data_manager@,
            handle: self.handle@,
            clock: self.time,
            mode: self.mode,
        }
    }
}

impl<
    A: Algo<NumberType = T, Slippage = U>,
    T: DataNumberType + PortfolioNumberType,
    U: SlippageModel<NumberType = T>,
    D: DataFeed<NumberType = T>,
> RTEngine<A, T, U, D> {
    /// The strategy's handle, as a specification.
    pub closed spec fn spec_handle(&self) -> EngineHandle<T, U> {
        self.handle
    }

    /// The strategy, as a specification.
    pub closed spec fn spec_algo(&self) -> A {
        self.algo
    }

    /// A builder without anything set.
    pub fn builder() -> (r: EngineBuilder<A, T, U, D>)
        ensures
            r.algo() is None,
            r.start_time() == 0,
            r.mode() is None,
            r.resolution() is None,
            r.broker() is None,
            r.reporting_currency() == Currency::USD,
    {
        EngineBuilder::new()
    }

    /// Whether a run goes on: in a back test, for as long as a feed has
    /// something left to send. No other mode drives the loop.
    pub fn is_running(&self) -> (r: bool)
        ensures
            r == (self@.mode == RunMode::BackTest && !(forall|i: int|
                0 <= i < self@.manager.feeds.len() ==> (#[trigger] self@.manager.feeds[i]).finished())),
    {
        match self.mode {
            RunMode::BackTest => !self.data_manager.is_finished(),
            _ => false,
        }
    }

    /// The first part of a cycle: asks the feeds for the points that are due,
    /// builds the slice, hands every point on to the fill engine, and lets the
    /// broker match the open orders and apply the outcomes to the portfolio.
    ///
    /// The error of a feed ends the cycle at once and is handed on as a
    /// `DataError`; nothing else fails.
    pub fn begin_cycle(&mut self) -> (r: Result<Slice<T>, Error>)
        ensures
            final(self).spec_algo() == old(self).spec_algo(),
            r matches Ok(slice) ==> ({
                &&& cycle_begins(old(self)@, final(self)@)
                &&& slice.end_time() == old(self)@.clock.now()
                &&& slice.bars() == cycle_bars(old(self)@)
            }),
            r matches Err(e) ==> cycle_fails(old(self)@, final(self)@) && e is DataError,
    {
        let now = self.time.get_time();
        self.handle.now = now;
        match self.data_manager.feeds_send_backtest(now) {
            Ok(_) => {},
            Err(e) => {
                return Err(Error::DataError(e));
            },
        }
        let mut points: Vec<DataPoint<T>> = Vec::new();
        let slice = self.data_manager.get_slice(&self.time, &mut points);
        self.handle.broker.receive_data(&mut points);
        match self.handle.broker.next_cycle(&mut self.handle.portfolio, now) {
            Ok(_) => {},
            Err(e) => {
                return Err(e);
            },
        }
        Ok(slice)
    }

    /// The last part of a cycle: updates the clock, which advances by one
    /// step in a back test.
    pub fn end_cycle(&mut self)
        ensures
            final(self).spec_algo() == old(self).spec_algo(),
            old(self)@.clock.ticked(old(self)@.mode, final(self)@.clock),
            final(self)@ == (EngineView {
                clock: final(self)@.clock,
                handle: HandleState { now: final(self)@.clock.now(), ..old(self)@.handle },
                ..old(self)@
            }),
    {
        self.time.update_time(self.mode);
        self.handle.now = self.time.get_time();
    }

    /// One cycle: the first part, then the strategy where the slice holds
    /// data, then the update of the clock. After the error of a feed the
    /// strategy is not called and the clock stands still.
    pub fn next_cycle(&mut self) -> (r: Result<(), Error>)
        ensures
            final(self).spec_algo() == old(self).spec_algo(),
            r is Ok ==> cycle_runs(old(self)@, final(self)@),
            r matches Err(e) ==> cycle_fails(old(self)@, final(self)@) && e is DataError,
    {
        let slice = match self.begin_cycle() {
            Ok(slice) => slice,
            Err(e) => {
                return Err(e);
            },
        };
        if slice.has_data() {
            self.algo.on_data(slice, &mut self.handle);
        }
        self.end_cycle();
        Ok(())
    }

    /// Registers an instrument with the portfolio, with the properties that
    /// the database gives for it: those of the first row that names its
    /// symbol, else those of the first row that covers its market and kind.
    /// Where the database has no such row nothing is registered and the
    /// answer is `false`.
    pub fn register_security(
        &mut self,
        security: SecuritySymbol,
        market: &str,
        database: &Vec<DataSymbolProperties<T>>,
    ) -> (r: bool)
        ensures
            final(self).spec_algo() == old(self).spec_algo(),
            r == properties_of(database@, security, market@).is_some(),
            final(self)@ == (match properties_of(database@, security, market@) {
                Some(i) => EngineView {
                    handle: HandleState {
                        ledger: LedgerState {
                            registered: old(self)@.handle.ledger.registered.insert(
                                security@,
                                database@[i].spec_to_security(),
                            ),
                            ..old(self)@.handle.ledger
                        },
                        ..old(self)@.handle
                    },
                    ..old(self)@
                },
                None => old(self)@,
            }),
    {
        match select_symbol_properties(database, &security, market) {
            Some(i) => {
                let details = database[i].to_security();
                self.register_custom_security(security, details);
                true
            },
            None => false,
        }
    }

    /// Registers an instrument's details with the portfolio.
    pub fn register_custom_security(&mut self, symbol: SecuritySymbol, details: Security<T>)
        ensures
            final(self).spec_algo() == old(self).spec_algo(),
            final(self)@ == (EngineView {
                handle: HandleState {
                    ledger: LedgerState {
                        registered: old(self)@.handle.ledger.registered.insert(symbol@, details),
                        ..old(self)@.handle.ledger
                    },
                    ..old(self)@.handle
                },
                ..old(self)@
            }),
    {
        self.handle.register_custom_security(symbol, details)
    }

    /// Adds a feed. Every instrument of the feed that the portfolio does not
    /// know yet is registered from the database first. Where the database
    /// has no row for one of them, nothing is registered, the feed is not
    /// added, and the answer is a `FeedError`.
    pub fn add_feed(&mut self, datafeed: D, database: &Vec<DataSymbolProperties<T>>) -> (r: Result<
        (),
        Error,
    >)
        ensures
            final(self).spec_algo() == old(self).spec_algo(),
            r is Ok <==> can_register(
                old(self)@.handle.ledger.registered,
                datafeed.symbols()@,
                database@,
                datafeed.symbols()@.len() as int,
            ),
            r is Ok ==> final(self)@ == (EngineView {
                manager: ManagerState {
                    feeds: old(self)@.manager.feeds.push(datafeed),
                    ..old(self)@.manager
                },
                handle: HandleState {
                    ledger: LedgerState {
                        registered: registered_after(
                            old(self)@.handle.ledger.registered,
                            datafeed.symbols()@,
                            database@,
                            datafeed.symbols()@.len() as int,
                        ),
                        ..old(self)@.handle.ledger
                    },
                    ..old(self)@.handle
                },
                ..old(self)@
            }),
            r matches Err(e) ==> final(self)@ == old(self)@ && (e matches Error::DataError(
                DataError::FeedError(m),
            ) && m@ == "Could not register security"@),
    {
        let symbols = datafeed.get_symbols();
        let n = symbols.len();
        let mut k: usize = 0;
        let ghost before = self@.handle.ledger.registered;
        while k < n
            invariant
                k <= n,
                n == symbols@.len(),
                *symbols == datafeed.symbols(),
                self@ == old(self)@,
                self.spec_algo() == old(self).spec_algo(),
                before == old(self)@.handle.ledger.registered,
                can_register(before, symbols@, database@, k as int),
            decreases n - k,
        {
            let known = self.handle.portfolio.is_registered(symbols[k].0.clone());
            let market = symbols[k].1.as_str();
            let found = select_symbol_properties(database, &symbols[k].0, market).is_some();
            if !known && !found {
                proof {
                    if can_register(before, symbols@, database@, n as int) {
                        lemma_can_register_each(before, symbols@, database@, n as int, k as int);
                    }
                }
                return Err(
                    Error::DataError(
                        DataError::FeedError(String::from_str("Could not register security")),
                    ),
                );
            }
            proof {
                lemma_can_register_more(before, symbols@, database@, k as int);
            }
            k += 1;
        }
        let mut i: usize = 0;
        while i < n
            invariant
                i <= n,
                n == symbols@.len(),
                *symbols == datafeed.symbols(),
                self.spec_algo() == old(self).spec_algo(),
                before == old(self)@.handle.ledger.registered,
                can_register(before, symbols@, database@, n as int),
                self@ == (EngineView {
                    handle: HandleState {
                        ledger: LedgerState {
                            registered: registered_after(before, symbols@, database@, i as int),
                            ..old(self)@.handle.ledger
                        },
                        ..old(self)@.handle
                    },
                    ..old(self)@
                }),
            decreases n - i,
        {
            let symbol = symbols[i].0.clone();
            if !self.handle.portfolio.is_registered(symbol.clone()) {
                let market = symbols[i].1.as_str();
                proof {
                    lemma_can_register_each(before, symbols@, database@, n as int, i as int);
                    if before.contains_key(symbol@) {
                        lemma_registered_grows(before, symbols@, database@, i as int, symbol@);
                    }
                }
                let done = self.register_security(symbol, market, database);
                assert(done);
            }
            i += 1;
        }
        self.data_manager.add_feed(datafeed);
        Ok(())
    }

    /// The clock's time.
    pub fn get_time(&self) -> (r: i64)
        ensures
            r == self@.clock.now(),
    {
        self.time.get_time()
    }

    /// The strategy.
    pub fn get_algo(&self) -> (r: &A)
        ensures
            *r == self.spec_algo(),
    {
        &self.algo
    }

    /// The strategy's handle.
    pub fn get_handle(&self) -> (r: &EngineHandle<T, U>)
        ensures
            r@ == self@.handle,
            *r == self.spec_handle(),
    {
        &self.handle
    }

    /// The market data manager.
    pub fn get_data_manager(&self) -> (r: &DataManager<T, D>)
        ensures
            r@ == self@.manager,
    {
        &self.data_manager
    }

    /// The latest outcome of every order, in the order in which the order ids
    /// first came.
    pub fn get_filled_orders(&self) -> (r: Vec<Result<FilledOrder<T>, OrderError<T>>>)
        ensures
            r@.len() == self.spec_handle().spec_portfolio().history_table().entries().len(),
            forall|i: int|
                0 <= i < r@.len() ==> #[trigger] r@[i]
                    == self.spec_handle().spec_portfolio().history_table().entries()[i].1,
    {
        self.handle.get_filled_orders()
    }

    /// Submits a market order for `volume` units, placed at the clock's time.
    pub fn submit_market_order(&mut self, symbol: SecuritySymbol, volume: T, side: Side) -> (r:
        Result<(), Error>)
        ensures
            final(self).spec_algo() == old(self).spec_algo(),
            r is Ok,
            final(self)@.manager == old(self)@.manager,
            final(self)@.clock == old(self)@.clock,
            final(self)@.mode == old(self)@.mode,
            final(self)@.handle.ledger == old(self)@.handle.ledger,
            final(self)@.handle.now == old(self)@.clock.now(),
            exists|order: MarketOrder<T>|
                ({
                    &&& order.id@ == "Order"@
                    &&& order.symbol == symbol
                    &&& order.timestamp == old(self)@.clock.now()
                    &&& order.volume == volume
                    &&& order.side == side
                    &&& #[trigger] submitted(
                        old(self)@.handle.broker,
                        order,
                        final(self)@.handle.broker,
                    )
                }),
    {
        self.handle.now = self.time.get_time();
        let ghost before = self@.handle;
        let r = self.handle.submit_market_order(symbol, volume, side);
        proof {
            let order = choose|order: MarketOrder<T>|
                {
                    &&& order.id@ == "Order"@
                    &&& order.symbol == symbol
                    &&& order.timestamp == before.now
                    &&& order.volume == volume
                    &&& order.side == side
                    &&& #[trigger] submitted(before.broker, order, self@.handle.broker)
                };
            assert(submitted(old(self)@.handle.broker, order, self@.handle.broker));
        }
        r
    }

    /// Sets the balance of a currency.
    pub fn set_cash(&mut self, currency: Currency, cash: T)
        ensures
            final(self).spec_algo() == old(self).spec_algo(),
            final(self)@ == (EngineView {
                handle: HandleState {
                    ledger: LedgerState {
                        cash: old(self)@.handle.ledger.cash.insert(currency, cash),
                        ..old(self)@.handle.ledger
                    },
                    ..old(self)@.handle
                },
                ..old(self)@
            }),
    {
        self.handle.set_cash(currency, cash)
    }

    /// The balance of a currency.
    pub fn cash_balance(&self, currency: Currency) -> (r: Option<T>)
        ensures
            r == (if self@.handle.ledger.cash.contains_key(currency) {
                Some(self@.handle.ledger.cash[currency])
            } else {
                None
            }),
    {
        self.handle.cash_balance(currency)
    }

    /// The holding of an instrument.
    pub fn get_holding(&self, symbol: SecuritySymbol) -> (r: Option<Holding<T>>)
        ensures
            r == (if self@.handle.ledger.holdings.contains_key(symbol@) {
                Some(self@.handle.ledger.holdings[symbol@])
            } else {
                None
            }),
    {
        self.handle.get_holding(symbol)
    }
}

/// What sets an engine up. An engine needs a resolution, a run mode, a broker
/// and a strategy; the start time is 0 and the reporting currency the US
/// dollar unless others are given.
#[verifier::reject_recursive_types(A)]
#[verifier::reject_recursive_types(T)]
#[verifier::reject_recursive_types(U)]
#[verifier::reject_recursive_types(D)]
pub struct EngineBuilder<
    A: Algo<NumberType = T, Slippage = U>,
    T: DataNumberType + PortfolioNumberType,
    U: SlippageModel<NumberType = T>,
    D: DataFeed<NumberType = T>,
> {
    algo: Option<A>,
    time: i64,
    mode: Option<RunMode>,
    resolution: Option<Resolution>,
    broker: Option<BacktestingBroker<T, U>>,
    reporting_currency: Currency,
    feeds: PhantomData<D>,
}

impl<
    A: Algo<NumberType = T, Slippage = U>,
    T: DataNumberType + PortfolioNumberType,
    U: SlippageModel<NumberType = T>,
    D: DataFeed<NumberType = T>,
> EngineBuilder<A, T, U, D> {
    /// The strategy, where one was given.
    pub closed spec fn algo(&self) -> Option<A> {
        self.algo
    }

    /// The start time.
    pub closed spec fn start_time(&self) -> i64 {
        self.time
    }

    /// The run mode, where one was given.
    pub closed spec fn mode(&self) -> Option<RunMode> {
        self.mode
    }

    /// The resolution, where one was given.
    pub closed spec fn resolution(&self) -> Option<Resolution> {
        self.resolution
    }

    /// The broker, where one was given.
    pub closed spec fn broker(&self) -> Option<BacktestingBroker<T, U>> {
        self.broker
    }

    /// The currency in which the portfolio reports.
    pub closed spec fn reporting_currency(&self) -> Currency {
        self.reporting_currency
    }

    /// The text of the error for the first thing that an engine needs and
    /// the builder lacks; nothing where the builder is complete.
    pub open spec fn missing(&self) -> Option<Seq<char>> {
        if self.resolution() is None {
            Some("Must set the minimum resolution of the data"@)
        } else if self.mode() is None {
            Some("Engine must have a Run Mode"@)
        } else if self.broker() is None {
            Some("Broker must be specified"@)
        } else if self.algo() is None {
            Some("Algorithm must be added before engine can be built"@)
        } else {
            None
        }
    }

    /// A builder without anything set.
    pub fn new() -> (r: Self)
        ensures
            r.algo() is None,
            r.start_time() == 0,
            r.mode() is None,
            r.resolution() is None,
            r.broker() is None,
            r.reporting_currency() == Currency::USD,
    {
        EngineBuilder {
            algo: None,
            time: 0,
            mode: None,
            resolution: None,
            broker: None,
            reporting_currency: Currency::USD,
            feeds: PhantomData,
        }
    }

    /// The engine: a clock at the start time that has not advanced, a data
    /// manager without feeds, a new portfolio in the reporting currency, and
    /// the broker and strategy that were given. Fails with
    /// `IncompleteBuilder` and the text for the first thing that is missing.
    pub fn build(self) -> (r: Result<RTEngine<A, T, U, D>, Error>)
        ensures
            r is Ok <==> self.missing() is None,
            r matches Err(e) ==> e matches Error::IncompleteBuilder(m) && Some(m@) == self.missing(),
            r matches Ok(engine) ==> ({
                &&& Some(engine.spec_algo()) == self.algo()
                &&& engine@.clock.now() == self.start_time()
                &&& !engine@.clock.is_quantized()
                &&& Some(engine@.clock.resolution()) == self.resolution()
                &&& Some(engine@.mode) == self.mode()
                &&& engine@.manager == (ManagerState::<T, D> {
                    feeds: Seq::empty(),
                    queue: Seq::empty(),
                    rates: Seq::empty(),
                    securities: Map::empty(),
                    mode: engine@.mode,
                })
                &&& engine@.handle.now == self.start_time()
                &&& Some(engine@.handle.broker) == (match self.broker() {
                    Some(b) => Some(b@),
                    None => None,
                })
                &&& engine@.handle.ledger == (LedgerState {
                    reporting_currency: self.reporting_currency(),
                    cash: Map::<Currency, T>::empty().insert(
                        self.reporting_currency(),
                        T::from_i8_spec(1),
                    ),
                    holdings: Map::empty(),
                    history: Map::empty(),
                    registered: Map::empty(),
                })
            }),
    {
        let resolution = match self.resolution {
            Some(x) => x,
            None => {
                return Err(
                    Error::IncompleteBuilder(
                        String::from_str("Must set the minimum resolution of the data"),
                    ),
                );
            },
        };
        let mode = match self.mode {
            Some(x) => x,
            None => {
                return Err(Error::IncompleteBuilder(String::from_str("Engine must have a Run Mode")));
            },
        };
        let broker = match self.broker {
            Some(x) => x,
            None => {
                return Err(Error::IncompleteBuilder(String::from_str("Broker must be specified")));
            },
        };
        let algo = match self.algo {
            Some(x) => x,
            None => {
                return Err(
                    Error::IncompleteBuilder(
                        String::from_str("Algorithm must be added before engine can be built"),
                    ),
                );
            },
        };
        let time_sync = TimeSync::new(self.time, resolution);
        Ok(
            RTEngine {
                data_manager: DataManager::new(mode),
                handle: EngineHandle {
                    portfolio: Portfolio::new(self.reporting_currency),
                    broker,
                    now: self.time,
                },
                algo,
                time: time_sync,
                mode,
            },
        )
    }

    /// Sets the start time, in milliseconds since the epoch.
    pub fn with_start_time_unix(self, time: i64) -> (r: Self)
        ensures
            r.start_time() == time,
            r.algo() == self.algo(),
            r.mode() == self.mode(),
            r.resolution() == self.resolution(),
            r.broker() == self.broker(),
            r.reporting_currency() == self.reporting_currency(),
    {
        EngineBuilder {
            algo: self.algo,
            time,
            mode: self.mode,
            resolution: self.resolution,
            broker: self.broker,
            reporting_currency: self.reporting_currency,
            feeds: PhantomData,
        }
    }

    /// Sets the currency in which the portfolio reports.
    pub fn with_reporting_currency(self, currency: Currency) -> (r: Self)
        ensures
            r.start_time() == self.start_time(),
            r.algo() == self.algo(),
            r.mode() == self.mode(),
            r.resolution() == self.resolution(),
            r.broker() == self.broker(),
            r.reporting_currency() == currency,
    {
        EngineBuilder {
            algo: self.algo,
            time: self.time,
            mode: self.mode,
            resolution: self.resolution,
            broker: self.broker,
            reporting_currency: currency,
            feeds: PhantomData,
        }
    }

    /// Sets the run mode.
    pub fn with_mode(self, mode: RunMode) -> (r: Self)
        ensures
            r.start_time() == self.start_time(),
            r.algo() == self.algo(),
            r.mode() == Some(mode),
            r.resolution() == self.resolution(),
            r.broker() == self.broker(),
            r.reporting_currency() == self.reporting_currency(),
    {
        EngineBuilder {
            algo: self.algo,
            time: self.time,
            mode: Some(mode),
            resolution: self.resolution,
            broker: self.broker,
            reporting_currency: self.reporting_currency,
            feeds: PhantomData,
        }
    }

    /// Sets the strategy.
    pub fn with_algo(self, algo: A) -> (r: Self)
        ensures
            r.start_time() == self.start_time(),
            r.algo() == Some(algo),
            r.mode() == self.mode(),
            r.resolution() == self.resolution(),
            r.broker() == self.broker(),
            r.reporting_currency() == self.reporting_currency(),
    {
        EngineBuilder {
            algo: Some(algo),
            time: self.time,
            mode: self.mode,
            resolution: self.resolution,
            broker: self.broker,
            reporting_currency: self.reporting_currency,
            feeds: PhantomData,
        }
    }

    /// Sets the resolution of the clock.
    pub fn with_resolution(self, resolution: Resolution) -> (r: Self)
        ensures
            r.start_time() == self.start_time(),
            r.algo() == self.algo(),
            r.mode() == self.mode(),
            r.resolution() == Some(resolution),
            r.broker() == self.broker(),
            r.reporting_currency() == self.reporting_currency(),
    {
        EngineBuilder {
            algo: self.algo,
            time: self.time,
            mode: self.mode,
            resolution: Some(resolution),
            broker: self.broker,
            reporting_currency: self.reporting_currency,
            feeds: PhantomData,
        }
    }

    /// Sets the broker.
    pub fn with_broker(self, broker: BacktestingBroker<T, U>) -> (r: Self)
        ensures
            r.start_time() == self.start_time(),
            r.algo() == self.algo(),
            r.mode() == self.mode(),
            r.resolution() == self.resolution(),
            r.broker() == Some(broker),
            r.reporting_currency() == self.reporting_currency(),
    {
        EngineBuilder {
            algo: self.algo,
            time: self.time,
            mode: self.mode,
            resolution: self.resolution,
            broker: Some(broker),
            reporting_currency: self.reporting_currency,
            feeds: PhantomData,
        }
    }
}

} // verus!
