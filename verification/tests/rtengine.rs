use rt_core::algorithm::Algo;
use rt_core::broker::fill::engine::BasicFillEngine;
use rt_core::broker::orders::{FilledOrder, MarketOrder, OrderError, OrderType, Side};
use rt_core::broker::slippage::simple_model::SimpleSlippageModel;
use rt_core::broker::BacktestingBroker;
use rt_core::data::datafeed::{CSVDataFeed, CSVDataFeedBuilder, DataFeedBuilder};
use rt_core::data::error::DataError;
use rt_core::data::slice::Slice;
use rt_core::data::tradebars::TradeBar;
use rt_core::data::{DataPoint, DataSymbolProperties, DataType, Resolution};
use rt_core::decimal::FixedDecimal;
use rt_core::error::Error;
use rt_core::portfolio::Holding;
use rt_core::rtengine::{EngineBuilder, EngineHandle, RTEngine, RunMode};
use rt_core::security::{Currency, Equity, Security, SecuritySymbol, SecurityType};
use std::cell::RefCell;
use std::rc::Rc;

type Model = SimpleSlippageModel<FixedDecimal>;
type Engine<A> = RTEngine<A, FixedDecimal, Model, CSVDataFeed<FixedDecimal>>;

fn d(mantissa: i128, scale: u32) -> FixedDecimal {
    FixedDecimal::new(mantissa, scale).unwrap()
}

fn apple() -> SecuritySymbol {
    SecuritySymbol::Equity(String::from("AAPL"))
}

fn daily_bar(time: i64, volume: i128, open: i128, high: i128, low: i128, close: i128) -> DataPoint<FixedDecimal> {
    DataPoint::new(
        apple(),
        time,
        DataType::Bar(TradeBar::new(
            d(volume, 1),
            d(open, 6),
            d(high, 6),
            d(low, 6),
            d(close, 6),
            time - 86400000,
            time,
            false,
        )),
        Resolution::Day,
    )
}

fn engine_data_line_daily() -> Vec<DataPoint<FixedDecimal>> {
    vec![
        daily_bar(1649116800000, 764684000, 174570007, 178490005, 174440002, 178440002),
        daily_bar(1649203200000, 734018000, 177500000, 178300003, 174419998, 175059998),
        daily_bar(1649289600000, 890588000, 172360001, 173630005, 170130005, 171830002),
        daily_bar(1649376000000, 775947000, 171160004, 173360001, 169850006, 172139999),
    ]
}

fn database() -> Vec<DataSymbolProperties<FixedDecimal>> {
    vec![DataSymbolProperties {
        market: String::from("usa"),
        symbol: String::from("*"),
        security_type: SecurityType::Equity,
        description: String::from("US equities"),
        quote_currency: Currency::USD,
        contract_multiplier: d(1, 0),
        minimum_price_variation: d(1, 2),
        lot_size: d(1, 2),
        market_ticker: None,
        minimum_order_size: None,
        price_magnifier: None,
    }]
}

fn broker() -> BacktestingBroker<FixedDecimal, Model> {
    let slippage = SimpleSlippageModel::new(d(1, 2));
    let fill_engine = BasicFillEngine::new(d(1, 2), slippage);
    BacktestingBroker::new(d(1, 2), fill_engine)
}

fn feed(rows: Vec<DataPoint<FixedDecimal>>) -> CSVDataFeed<FixedDecimal> {
    let mut feed = CSVDataFeedBuilder::new(apple(), "usa", Resolution::Day)
        .with_path("tests/data/AAPL_yahoo_reduced.csv")
        .with_mode(RunMode::BackTest)
        .build()
        .unwrap();
    feed.connect(rows, RunMode::BackTest).unwrap();
    feed
}

#[derive(Clone)]
struct TestAlgo {}

impl Algo for TestAlgo {
    type NumberType = FixedDecimal;
    type Slippage = Model;

    fn on_data(&self, _slice: Slice<FixedDecimal>, _engine: &mut EngineHandle<FixedDecimal, Model>) {}
}

#[derive(Clone)]
struct MyAlgo {
    buy_at: i64,
    seen: Rc<RefCell<Vec<(i64, i64, bool)>>>,
}

impl Algo for MyAlgo {
    type NumberType = FixedDecimal;
    type Slippage = Model;

    fn on_data(&self, slice: Slice<FixedDecimal>, engine: &mut EngineHandle<FixedDecimal, Model>) {
        self.seen.borrow_mut().push((
            engine.get_time(),
            slice.get_end_time(),
            slice.get_bar_by_symbol(&apple()).is_some(),
        ));
        if engine.get_time() == self.buy_at {
            engine.submit_market_order(apple(), d(10000, 1), Side::Buy).unwrap();
        }
    }
}

fn backtest(buy_at: i64) -> (Engine<MyAlgo>, Rc<RefCell<Vec<(i64, i64, bool)>>>) {
    let seen = Rc::new(RefCell::new(Vec::new()));
    let my_algo = MyAlgo { buy_at, seen: seen.clone() };
    let mut engine: Engine<MyAlgo> = RTEngine::builder()
        .with_mode(RunMode::BackTest)
        .with_algo(my_algo)
        .with_resolution(Resolution::Day)
        .with_start_time_unix(1649030400000)
        .with_broker(broker())
        .build()
        .unwrap();
    engine.set_cash(Currency::USD, d(2000000, 1));
    engine.add_feed(feed(engine_data_line_daily()), &database()).unwrap();
    (engine, seen)
}

#[test]
fn test_register_security_equity() {
    // Arrange
    let algo = TestAlgo {};

    let mut engine: Engine<TestAlgo> = RTEngine::builder()
        .with_mode(RunMode::UnitTest)
        .with_algo(algo)
        .with_resolution(Resolution::Day)
        .with_start_time_unix(1649030400000)
        .with_broker(broker())
        .build()
        .unwrap();

    let expected = &Security::Equity(Equity::new(Currency::USD, d(1, 2)));
    // Act

    assert!(engine.register_security(SecuritySymbol::Equity(String::from("AAPL")), "usa", &database()));

    let handle = engine.get_handle();
    let result = handle
        .get_portfolio()
        .security_details(&SecuritySymbol::Equity(String::from("AAPL")))
        .unwrap();

    // Assert
    assert_eq!(result, expected)
}

#[test]
fn test_on_data_backtesting() {
    // Arrange
    let (mut engine, seen) = backtest(1649376000000);

    // Act
    let mut cycles = 0;
    while engine.is_running() {
        engine.next_cycle().unwrap();
        cycles += 1;
    }

    // Assert
    assert_eq!(cycles, 5);
    assert_eq!(
        *seen.borrow(),
        vec![
            (1649116800000, 1649116800000, true),
            (1649203200000, 1649203200000, true),
            (1649289600000, 1649289600000, true),
            (1649376000000, 1649376000000, true),
        ]
    );
    assert_eq!(engine.get_time(), 1649462400000);
    assert_eq!(engine.cash_balance(Currency::USD), Some(d(200000, 0)));
    assert_eq!(engine.get_holding(apple()), None);
    assert!(engine.get_filled_orders().is_empty());
    assert_eq!(engine.get_handle().get_open_orders().len(), 1);
}

#[test]
fn an_order_fills_on_the_bar_after_the_one_it_was_placed_on() {
    let (mut engine, _seen) = backtest(1649289600000);
    while engine.is_running() {
        engine.next_cycle().unwrap();
    }
    let order = OrderType::MarketOrder(MarketOrder::new(
        "Order",
        apple(),
        1649289600000,
        d(1000, 0),
        Side::Buy,
    ));
    let expected: Result<FilledOrder<FixedDecimal>, OrderError<FixedDecimal>> = Ok(FilledOrder::new(
        order,
        1649376000000,
        d(1000, 0),
        d(17287160404, 8),
        d(1, 2),
        false,
    ));
    assert_eq!(engine.get_filled_orders(), vec![expected]);
    assert_eq!(engine.cash_balance(Currency::USD), Some(d(2712838596, 5)));
    assert_eq!(engine.get_holding(apple()), Some(Holding::Equity(d(1000, 0))));
    assert_eq!(engine.get_handle().get_open_orders().len(), 0);
}

#[test]
fn the_first_part_of_a_cycle_leaves_the_clock_and_the_last_part_moves_it() {
    let (mut engine, seen) = backtest(0);
    let slice = engine.begin_cycle().unwrap();
    assert!(!slice.has_data());
    assert_eq!(slice.get_end_time(), 1649030400000);
    assert_eq!(engine.get_time(), 1649030400000);
    engine.end_cycle();
    assert_eq!(engine.get_time(), 1649116800000);
    let slice = engine.begin_cycle().unwrap();
    assert!(slice.has_data());
    assert_eq!(slice.get_end_time(), 1649116800000);
    assert_eq!(engine.get_handle().get_time(), 1649116800000);
    assert!(seen.borrow().is_empty());
    assert!(engine.get_data_manager().get_fx_manager().get_rate(Currency::USD, Currency::JPY).is_none());
}

#[test]
fn only_a_back_test_runs() {
    let mut engine: Engine<TestAlgo> = RTEngine::builder()
        .with_mode(RunMode::UnitTest)
        .with_algo(TestAlgo {})
        .with_resolution(Resolution::Day)
        .with_broker(broker())
        .build()
        .unwrap();
    engine.add_feed(feed(engine_data_line_daily()), &database()).unwrap();
    assert!(!engine.is_running());
    assert_eq!(engine.get_time(), 0);
    engine.next_cycle().unwrap();
    assert_eq!(engine.get_time(), 0);
}

#[test]
fn a_feed_of_an_instrument_that_the_database_lacks_is_not_added() {
    let (mut engine, _seen) = backtest(0);
    let other = CSVDataFeedBuilder::new(
        SecuritySymbol::Equity(String::from("VOD")),
        "lse",
        Resolution::Day,
    )
    .with_mode(RunMode::BackTest)
    .build()
    .unwrap();
    match engine.add_feed(other, &database()) {
        Err(Error::DataError(DataError::FeedError(m))) => {
            assert_eq!(m, "Could not register security")
        }
        _ => panic!("expected a feed error"),
    }
    assert_eq!(engine.get_data_manager().get_feeds().len(), 1);
    assert!(!engine.register_security(SecuritySymbol::Equity(String::from("VOD")), "lse", &database()));
    engine.register_custom_security(
        SecuritySymbol::Equity(String::from("VOD")),
        Security::Equity(Equity::new(Currency::GBP, d(1, 2))),
    );
    assert!(engine
        .get_handle()
        .get_portfolio()
        .is_registered(SecuritySymbol::Equity(String::from("VOD"))));
}

#[test]
fn a_builder_names_the_first_thing_that_is_missing() {
    let message = |builder: EngineBuilder<
        TestAlgo,
        FixedDecimal,
        Model,
        CSVDataFeed<FixedDecimal>,
    >| match builder.build() {
        Err(Error::IncompleteBuilder(m)) => m,
        _ => panic!("expected an incomplete builder"),
    };
    assert_eq!(message(EngineBuilder::new()), "Must set the minimum resolution of the data");
    assert_eq!(
        message(EngineBuilder::new().with_algo(TestAlgo {}).with_broker(broker()).with_mode(RunMode::BackTest)),
        "Must set the minimum resolution of the data"
    );
    assert_eq!(
        message(EngineBuilder::new().with_resolution(Resolution::Day)),
        "Engine must have a Run Mode"
    );
    assert_eq!(
        message(EngineBuilder::new().with_resolution(Resolution::Day).with_mode(RunMode::BackTest)),
        "Broker must be specified"
    );
    assert_eq!(
        message(
            EngineBuilder::new()
                .with_resolution(Resolution::Day)
                .with_mode(RunMode::BackTest)
                .with_broker(broker())
        ),
        "Algorithm must be added before engine can be built"
    );
}

#[test]
fn a_new_engine_starts_at_its_start_time_with_one_dollar() {
    let engine: Engine<TestAlgo> = RTEngine::builder()
        .with_mode(RunMode::BackTest)
        .with_algo(TestAlgo {})
        .with_resolution(Resolution::Second)
        .with_start_time_unix(1050)
        .with_broker(broker())
        .build()
        .unwrap();
    assert_eq!(engine.get_time(), 1050);
    assert_eq!(engine.get_handle().get_time(), 1050);
    assert_eq!(engine.cash_balance(Currency::USD), Some(d(1, 0)));
    assert_eq!(engine.cash_balance(Currency::EUR), None);
    assert!(!engine.is_running());
}

#[test]
fn an_engine_order_carries_the_time_of_the_clock() {
    let (mut engine, _seen) = backtest(0);
    engine.submit_market_order(apple(), d(5, 0), Side::Sell).unwrap();
    let open = engine.get_handle().get_open_orders();
    assert_eq!(open.len(), 1);
    assert_eq!(
        open.get(&String::from("Order")),
        Some(&OrderType::MarketOrder(MarketOrder::new(
            "Order",
            apple(),
            1649030400000,
            d(5, 0),
            Side::Sell
        )))
    );
}

#[test]
fn the_portfolio_reports_in_the_currency_of_the_builder() {
    let engine: Engine<TestAlgo> = RTEngine::builder()
        .with_mode(RunMode::BackTest)
        .with_algo(TestAlgo {})
        .with_resolution(Resolution::Second)
        .with_broker(broker())
        .with_reporting_currency(Currency::EUR)
        .build()
        .unwrap();
    assert_eq!(engine.get_handle().get_portfolio().reporting_currency(), Currency::EUR);
    assert_eq!(engine.cash_balance(Currency::EUR), Some(d(1, 0)));
    assert_eq!(engine.cash_balance(Currency::USD), None);
}
