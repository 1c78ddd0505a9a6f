use rt_core::algorithm::Algo;
use rt_core::broker::fill::engine::BasicFillEngine;
use rt_core::broker::slippage::simple_model::SimpleSlippageModel;
use rt_core::broker::BacktestingBroker;
use rt_core::data::datafeed::DataFeed;
use rt_core::data::datamanger::DataManager;
use rt_core::data::error::DataError;
use rt_core::data::slice::Slice;
use rt_core::data::{DataPoint, DataSymbolProperties, DataType, Resolution};
use rt_core::decimal::FixedDecimal;
use rt_core::error::Error;
use rt_core::rtengine::{EngineHandle, RTEngine, RunMode};
use rt_core::security::{Currency, SecuritySymbol, SecurityType};
use rt_core::time::TimeSync;

/// A feed that hands out one tick per call and fails at a given call.
struct CountingFeed {
    symbols: Vec<(SecuritySymbol, String)>,
    calls: i64,
    fails_at: i64,
    ends_at: i64,
}

impl CountingFeed {
    fn new(name: &str, fails_at: i64, ends_at: i64) -> Self {
        CountingFeed {
            symbols: vec![(SecuritySymbol::Equity(String::from(name)), String::from("usa"))],
            calls: 0,
            fails_at,
            ends_at,
        }
    }
}

impl DataFeed for CountingFeed {
    type NumberType = FixedDecimal;

    fn symbols(&self) -> Vec<(SecuritySymbol, String)> {
        unreachable!()
    }

    fn due_len(&self, _now: i64) -> usize {
        unreachable!()
    }

    fn due_at(&self, _now: i64, _i: usize) -> DataPoint<FixedDecimal> {
        unreachable!()
    }

    fn sent(&self, _now: i64, _after: Self) -> bool {
        unreachable!()
    }

    fn finished(&self) -> bool {
        unreachable!()
    }

    fn get_symbols(&self) -> &Vec<(SecuritySymbol, String)> {
        &self.symbols
    }

    fn send_backtest(
        &mut self,
        now: i64,
        sink: &mut Vec<DataPoint<FixedDecimal>>,
    ) -> Result<(), DataError> {
        self.calls += 1;
        if self.calls == self.fails_at {
            return Err(DataError::FeedError(String::from("the line is down")));
        }
        sink.push(DataPoint::new(
            self.symbols[0].0.clone(),
            now,
            DataType::Tick(FixedDecimal::new(self.calls as i128, 0).unwrap()),
            Resolution::Tick,
        ));
        Ok(())
    }

    fn is_finished(&self) -> bool {
        self.calls >= self.ends_at
    }
}

#[derive(Clone)]
struct Idle {}

impl Algo for Idle {
    type NumberType = FixedDecimal;
    type Slippage = SimpleSlippageModel<FixedDecimal>;

    fn on_data(
        &self,
        _slice: Slice<FixedDecimal>,
        _engine: &mut EngineHandle<FixedDecimal, SimpleSlippageModel<FixedDecimal>>,
    ) {
    }
}

fn wildcard() -> Vec<DataSymbolProperties<FixedDecimal>> {
    let one = FixedDecimal::new(1, 0).unwrap();
    vec![DataSymbolProperties {
        market: String::from("usa"),
        symbol: String::from("*"),
        security_type: SecurityType::Equity,
        description: String::from(""),
        quote_currency: Currency::USD,
        contract_multiplier: one,
        minimum_price_variation: one,
        lot_size: one,
        market_ticker: None,
        minimum_order_size: None,
        price_magnifier: None,
    }]
}

#[test]
fn the_error_of_a_feed_ends_the_round() {
    let mut manager: DataManager<FixedDecimal, CountingFeed> = DataManager::new(RunMode::BackTest);
    manager.add_feed(CountingFeed::new("A", 0, 9));
    manager.add_feed(CountingFeed::new("B", 2, 9));
    manager.add_feed(CountingFeed::new("C", 0, 9));
    assert!(manager.feeds_send_backtest(1000).is_ok());
    match manager.feeds_send_backtest(2000) {
        Err(DataError::FeedError(m)) => assert_eq!(m, "the line is down"),
        _ => panic!("expected a feed error"),
    }
    let calls: Vec<i64> = manager.get_feeds().iter().map(|feed| feed.calls).collect();
    assert_eq!(calls, vec![2, 2, 1]);
    let clock = TimeSync::new(2000, Resolution::Second);
    let mut sink = Vec::new();
    manager.get_slice(&clock, &mut sink);
    let times: Vec<i64> = sink.iter().map(|point| point.get_time()).collect();
    assert_eq!(times, vec![1000, 1000, 1000, 2000]);
}

#[test]
fn the_error_of_a_feed_ends_the_cycle_and_leaves_the_clock() {
    let broker = BacktestingBroker::new(
        FixedDecimal::new(0, 0).unwrap(),
        BasicFillEngine::new(
            FixedDecimal::new(0, 0).unwrap(),
            SimpleSlippageModel::new(FixedDecimal::new(0, 0).unwrap()),
        ),
    );
    let mut engine: RTEngine<Idle, FixedDecimal, SimpleSlippageModel<FixedDecimal>, CountingFeed> =
        RTEngine::builder()
            .with_mode(RunMode::BackTest)
            .with_algo(Idle {})
            .with_resolution(Resolution::Second)
            .with_start_time_unix(5000)
            .with_broker(broker)
            .build()
            .unwrap();
    engine.add_feed(CountingFeed::new("A", 3, 9), &wildcard()).unwrap();
    assert!(engine.is_running());
    assert!(engine.next_cycle().is_ok());
    assert!(engine.next_cycle().is_ok());
    assert_eq!(engine.get_time(), 7000);
    match engine.next_cycle() {
        Err(Error::DataError(DataError::FeedError(m))) => assert_eq!(m, "the line is down"),
        _ => panic!("expected a feed error"),
    }
    assert_eq!(engine.get_time(), 7000);
    assert_eq!(engine.get_handle().get_time(), 7000);
    assert!(engine.next_cycle().is_ok());
    assert_eq!(engine.get_time(), 8000);
}

#[test]
fn a_run_ends_when_every_feed_is_finished() {
    let mut manager: DataManager<FixedDecimal, CountingFeed> = DataManager::new(RunMode::BackTest);
    manager.add_feed(CountingFeed::new("A", 0, 1));
    manager.add_feed(CountingFeed::new("B", 0, 2));
    assert!(!manager.is_finished());
    manager.feeds_send_backtest(1).unwrap();
    assert!(!manager.is_finished());
    manager.feeds_send_backtest(2).unwrap();
    assert!(manager.is_finished());
}
