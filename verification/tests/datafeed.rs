use rt_core::data::data_providers::daily_datapoint;
use rt_core::data::datafeed::{CSVDataFeed, CSVDataFeedBuilder, DataFeed, DataFeedBuilder};
use rt_core::data::datamanger::DataManager;
use rt_core::data::error::DataError;
use rt_core::data::fx_manager::ExchangeRate;
use rt_core::data::tradebars::TradeBar;
use rt_core::data::{DataPoint, DataType, Resolution};
use rt_core::decimal::FixedDecimal;
use rt_core::rtengine::RunMode;
use rt_core::security::{Currency, SecuritySymbol};
use rt_core::time::TimeSync;

fn feed_dec(mantissa: i128, scale: u32) -> FixedDecimal {
    FixedDecimal::new(mantissa, scale).unwrap()
}

fn ts() -> SecuritySymbol {
    SecuritySymbol::Equity(String::from("TS"))
}

fn bar_point(symbol: SecuritySymbol, time: i64, close: i128) -> DataPoint<FixedDecimal> {
    DataPoint::new(
        symbol,
        time,
        DataType::Bar(TradeBar::new(
            feed_dec(10000, 1),
            feed_dec(453, 2),
            feed_dec(567, 2),
            feed_dec(245, 2),
            feed_dec(close, 2),
            time - 1000,
            time,
            false,
        )),
        Resolution::Day,
    )
}

fn setup_datapoint_vec() -> Vec<DataPoint<FixedDecimal>> {
    let mut data = Vec::new();

    data.push(DataPoint::new(
        ts(),
        28000,
        DataType::Bar(TradeBar::new(
            feed_dec(10000, 1),
            feed_dec(453, 2),
            feed_dec(567, 2),
            feed_dec(245, 2),
            feed_dec(389, 2),
            27000,
            28000,
            false,
        )),
        Resolution::Day,
    ));

    data
}

fn built_feed(rows: Vec<DataPoint<FixedDecimal>>) -> CSVDataFeed<FixedDecimal> {
    let mut feed = CSVDataFeedBuilder::new(ts(), "usa", Resolution::Day)
        .with_mode(RunMode::BackTest)
        .build()
        .unwrap();
    feed.connect(rows, RunMode::BackTest).unwrap();
    feed
}

#[test]
fn test_csvdatafeed_send_backtest() {
    // Arrange
    let mut sink = Vec::new();

    let mut feed = built_feed(setup_datapoint_vec());

    let expected = setup_datapoint_vec().last().unwrap().clone();

    // Act
    let _ = feed.send_backtest(28000, &mut sink);
    let result = sink.remove(0);

    // Assert
    assert_eq!(result, expected)
}

#[test]
fn test_csvdatafeed_send_backtest_no_bar() {
    // Arrange
    let mut sink: Vec<DataPoint<FixedDecimal>> = Vec::new();

    let mut feed = built_feed(setup_datapoint_vec());

    // Act
    let _ = feed.send_backtest(27000, &mut sink);

    // Assert
    assert!(sink.is_empty());
    assert!(!feed.is_finished())
}

#[test]
fn it_works() {
    let manager: DataManager<FixedDecimal, CSVDataFeed<FixedDecimal>> =
        DataManager::new(RunMode::BackTest);
    assert!(manager.is_finished());
    assert!(manager.get_feeds().is_empty());
    assert_eq!(manager.get_mode(), RunMode::BackTest);
    assert!(!manager.symbol_exists(ts()));
}

#[test]
fn rows_in_ascending_order_are_turned_round() {
    let rows = vec![bar_point(ts(), 1000, 1), bar_point(ts(), 2000, 2), bar_point(ts(), 3000, 3)];
    let mut feed = built_feed(rows);
    assert!(feed.is_orientated_correctly());
    let mut sink = Vec::new();
    feed.send_backtest(2000, &mut sink).unwrap();
    assert_eq!(sink, vec![bar_point(ts(), 1000, 1), bar_point(ts(), 2000, 2)]);
    assert!(!feed.is_finished());
    feed.send_backtest(2999, &mut sink).unwrap();
    assert_eq!(sink.len(), 2);
    feed.send_backtest(3000, &mut sink).unwrap();
    assert_eq!(sink.len(), 3);
    assert_eq!(sink[2], bar_point(ts(), 3000, 3));
    assert!(feed.is_finished());
}

#[test]
fn rows_in_descending_order_are_left_as_they_are() {
    let rows = vec![bar_point(ts(), 3000, 3), bar_point(ts(), 2000, 2), bar_point(ts(), 1000, 1)];
    let mut feed = built_feed(rows);
    let mut sink = Vec::new();
    feed.send_backtest(1000, &mut sink).unwrap();
    assert_eq!(sink, vec![bar_point(ts(), 1000, 1)]);
}

#[test]
fn a_feed_stops_at_the_first_point_that_is_not_due() {
    let rows = vec![bar_point(ts(), 1000, 1), bar_point(ts(), 5000, 5), bar_point(ts(), 2000, 2)];
    let mut feed = built_feed(rows);
    let mut sink = Vec::new();
    feed.send_backtest(2000, &mut sink).unwrap();
    assert_eq!(sink, vec![bar_point(ts(), 1000, 1)]);
}

#[test]
fn reverse_data_turns_the_points_round() {
    let rows = vec![bar_point(ts(), 3000, 3), bar_point(ts(), 2000, 2), bar_point(ts(), 1000, 1)];
    let mut feed = built_feed(rows);
    feed.reverse_data();
    assert!(!feed.is_orientated_correctly());
    let mut sink = Vec::new();
    feed.send_backtest(2999, &mut sink).unwrap();
    assert!(sink.is_empty());
    feed.send_backtest(3000, &mut sink).unwrap();
    assert_eq!(
        sink,
        vec![bar_point(ts(), 3000, 3), bar_point(ts(), 2000, 2), bar_point(ts(), 1000, 1)]
    );
}

#[test]
fn an_empty_feed_is_finished_and_orientated() {
    let mut feed = built_feed(Vec::new());
    assert!(feed.is_finished());
    assert!(feed.is_orientated_correctly());
    let mut sink = Vec::new();
    feed.send_backtest(i64::MAX, &mut sink).unwrap();
    assert!(sink.is_empty());
}

#[test]
fn a_builder_without_a_run_mode_does_not_build() {
    let builder: CSVDataFeedBuilder<FixedDecimal> =
        CSVDataFeedBuilder::new(ts(), "usa", Resolution::Day).with_path("tests/data/x.csv");
    match builder.build() {
        Err(DataError::IncompleteDataFeedBuilder(m)) => {
            assert_eq!(m, "Data feed must have a run mode set")
        }
        _ => panic!("expected an incomplete builder"),
    }
}

#[test]
fn a_builder_hands_its_settings_to_the_feed() {
    let builder: CSVDataFeedBuilder<FixedDecimal> =
        CSVDataFeedBuilder::new(ts(), "usa", Resolution::Day)
            .with_path("tests/data/")
            .with_path("AAPL.csv")
            .with_resolution(Resolution::Hour)
            .with_mode(RunMode::BackTest);
    assert_eq!(builder.get_symbols(), &vec![(ts(), String::from("usa"))]);
    let feed = builder.build().unwrap();
    assert_eq!(feed.get_path(), "tests/data/AAPL.csv");
    assert_eq!(feed.get_resolution(), Resolution::Hour);
    assert_eq!(feed.get_symbols(), &vec![(ts(), String::from("usa"))]);
}

#[test]
fn a_point_at_the_start_of_the_period_is_left_out_and_one_at_its_end_is_taken() {
    let msft = SecuritySymbol::Equity(String::from("MSFT"));
    let ibm = SecuritySymbol::Equity(String::from("IBM"));
    let old = SecuritySymbol::Equity(String::from("OLD"));
    let mut manager: DataManager<FixedDecimal, CSVDataFeed<FixedDecimal>> =
        DataManager::new(RunMode::BackTest);
    manager.add_feed(built_feed(vec![
        bar_point(old.clone(), 0, 9),
        bar_point(msft.clone(), 1000, 1),
        bar_point(ibm.clone(), 1001, 2),
        bar_point(ts(), 2000, 3),
        bar_point(ts(), 2001, 4),
    ]));
    let mut clock = TimeSync::new(1000, Resolution::Second);
    clock.update_time_backtest();
    assert_eq!(clock.get_time(), 2000);
    assert_eq!(clock.period_start(), 1000);

    manager.feeds_send_backtest(clock.get_time()).unwrap();
    let mut sink = Vec::new();
    let slice = manager.get_slice(&clock, &mut sink);

    assert_eq!(slice.get_end_time(), 2000);
    assert!(slice.get_bar_by_symbol(&old).is_none());
    assert!(slice.get_bar_by_symbol(&msft).is_none());
    assert!(slice.get_bar_by_symbol(&ibm).is_some());
    assert!(slice.get_bar_by_symbol(&ts()).is_some());
    assert_eq!(slice.get_bar_by_symbol(&ts()).unwrap().close, feed_dec(3, 2));
    assert_eq!(
        sink,
        vec![
            bar_point(old, 0, 9),
            bar_point(msft, 1000, 1),
            bar_point(ibm, 1001, 2),
            bar_point(ts(), 2000, 3)
        ]
    );
    assert!(!manager.is_finished());

    clock.update_time_backtest();
    manager.feeds_send_backtest(clock.get_time()).unwrap();
    let slice = manager.get_slice(&clock, &mut sink);
    assert_eq!(slice.get_bar_by_symbol(&ts()).unwrap().close, feed_dec(4, 2));
    assert_eq!(sink.len(), 5);
    assert!(manager.is_finished());

    let empty = manager.get_slice(&clock, &mut sink);
    assert!(!empty.has_data());
    assert_eq!(sink.len(), 5);
}

#[test]
fn the_feeds_are_asked_in_the_order_in_which_they_were_added() {
    let mut manager: DataManager<FixedDecimal, CSVDataFeed<FixedDecimal>> =
        DataManager::new(RunMode::BackTest);
    let msft = SecuritySymbol::Equity(String::from("MSFT"));
    manager.add_feed(built_feed(vec![bar_point(ts(), 1000, 1), bar_point(ts(), 2000, 2)]));
    manager.add_feed(built_feed(vec![bar_point(msft.clone(), 1500, 3)]));
    manager.feeds_send_backtest(2000).unwrap();
    let clock = TimeSync::new(2000, Resolution::Hour);
    let mut sink = Vec::new();
    let slice = manager.get_slice(&clock, &mut sink);
    assert_eq!(
        sink,
        vec![bar_point(ts(), 1000, 1), bar_point(ts(), 2000, 2), bar_point(msft.clone(), 1500, 3)]
    );
    assert_eq!(slice.get_bar_by_symbol(&ts()).unwrap().close, feed_dec(2, 2));
    assert_eq!(slice.symbols(), vec![ts(), msft]);
    assert!(manager.is_finished());
}

#[test]
fn a_currency_pair_updates_the_rate_cache_whatever_its_time() {
    let mut manager: DataManager<FixedDecimal, CSVDataFeed<FixedDecimal>> =
        DataManager::new(RunMode::BackTest);
    let pair = SecuritySymbol::FX(Currency::USD, Currency::JPY);
    manager.add_feed(built_feed(vec![
        bar_point(pair.clone(), 5, 800),
        DataPoint::new(pair.clone(), 7, DataType::Tick(feed_dec(9, 0)), Resolution::Tick),
        DataPoint::new(
            SecuritySymbol::FX(Currency::JPY, Currency::GBP),
            8,
            DataType::Tick(feed_dec(4, 0)),
            Resolution::Tick,
        ),
    ]));
    manager.feeds_send_backtest(100000).unwrap();
    let clock = TimeSync::new(100000, Resolution::Second);
    let mut sink = Vec::new();
    let slice = manager.get_slice(&clock, &mut sink);
    assert!(!slice.has_data());
    assert_eq!(sink.len(), 3);
    let rates = manager.get_fx_manager();
    assert_eq!(
        rates.get_rate(Currency::USD, Currency::JPY),
        Some(ExchangeRate::new(Currency::USD, Currency::JPY, feed_dec(9, 0)))
    );
    assert_eq!(
        rates.lookup(Currency::USD, Currency::GBP),
        Some(ExchangeRate::new(Currency::USD, Currency::GBP, feed_dec(36, 0)))
    );
}

#[test]
fn a_daily_row_spans_its_day_and_is_stamped_with_its_end() {
    let point = daily_datapoint(
        ts(),
        1649030400000,
        feed_dec(174570007, 6),
        feed_dec(178490005, 6),
        feed_dec(174440002, 6),
        feed_dec(178440002, 6),
        feed_dec(76468400, 0),
        Resolution::Day,
    )
    .unwrap();
    assert_eq!(point.get_time(), 1649116800000);
    assert_eq!(point.get_symbol(), ts());
    assert_eq!(point.get_period(), Resolution::Day);
    assert_eq!(
        point.get_data(),
        DataType::Bar(TradeBar::new(
            feed_dec(76468400, 0),
            feed_dec(174570007, 6),
            feed_dec(178490005, 6),
            feed_dec(174440002, 6),
            feed_dec(178440002, 6),
            1649030400000,
            1649116800000,
            true,
        ))
    );
    assert!(daily_datapoint(
        ts(),
        i64::MAX - 86399999,
        feed_dec(1, 0),
        feed_dec(1, 0),
        feed_dec(1, 0),
        feed_dec(1, 0),
        feed_dec(1, 0),
        Resolution::Day
    )
    .is_none());
}

#[test]
fn errors_carry_their_text() {
    assert_eq!(DataError::ConnectionError.message(), "Failed to connect Feed");
    assert_eq!(DataError::CSVError(String::from("bad row")).message(), "bad row");
    assert_eq!(DataError::IncompleteDataFeedBuilder(String::from("a")).message(), "a");
    assert_eq!(DataError::FeedError(String::from("b")).message(), "b");
}
