use rt_core::broker::fill::engine::BasicFillEngine;
use rt_core::broker::orders::{FilledOrder, MarketOrder, Order, OrderError, OrderType, Side};
use rt_core::broker::slippage::simple_model::SimpleSlippageModel;
use rt_core::broker::slippage::SlippageModel;
use rt_core::broker::{BacktestingBroker, BrokerMessage};
use rt_core::data::tradebars::TradeBar;
use rt_core::data::{DataPoint, DataType, Resolution};
use rt_core::decimal::FixedDecimal;
use rt_core::portfolio::{Holding, Portfolio};
use rt_core::security::{Currency, Equity, Security, SecuritySymbol};
use rt_core::time::TimeSync;
use rt_core::NumberType;

fn num(mantissa: i128, scale: u32) -> FixedDecimal {
    FixedDecimal::new(mantissa, scale).unwrap()
}

fn aapl() -> SecuritySymbol {
    SecuritySymbol::Equity(String::from("AAPL"))
}

fn setup_data_line_daily() -> Vec<DataPoint<FixedDecimal>> {
    let mut output = Vec::new();

    output.push(DataPoint::new(
        aapl(),
        1649116800000,
        DataType::Bar(TradeBar::new(
            num(764684000, 1),
            num(174570007, 6),
            num(178490005, 6),
            num(174440002, 6),
            num(178440002, 6),
            1649030400000,
            1649116800000,
            false,
        )),
        Resolution::Day,
    ));

    output.push(DataPoint::new(
        aapl(),
        1649203200000,
        DataType::Bar(TradeBar::new(
            num(734018000, 1),
            num(1775, 1),
            num(178300003, 6),
            num(174419998, 6),
            num(175059998, 6),
            1649116800000,
            1649203200000,
            false,
        )),
        Resolution::Day,
    ));

    output.push(DataPoint::new(
        aapl(),
        1649289600000,
        DataType::Bar(TradeBar::new(
            num(890588000, 1),
            num(172360001, 6),
            num(173630005, 6),
            num(170130005, 6),
            num(171830002, 6),
            1649203200000,
            1649289600000,
            false,
        )),
        Resolution::Day,
    ));

    output.push(DataPoint::new(
        aapl(),
        1649376000000,
        DataType::Bar(TradeBar::new(
            num(775947000, 1),
            num(171160004, 6),
            num(173360001, 6),
            num(169850006, 6),
            num(172139999, 6),
            1649289600000,
            1649376000000,
            false,
        )),
        Resolution::Day,
    ));

    output
}

fn funded_portfolio(cash: Option<i128>) -> Portfolio<FixedDecimal> {
    let mut portfolio: Portfolio<FixedDecimal> = Portfolio::new(Currency::USD);
    if let Some(cash) = cash {
        portfolio.set_cash(Currency::USD, num(cash, 0));
    }
    portfolio.register_security(aapl(), Security::Equity(Equity::new(Currency::USD, num(1, 2))));
    portfolio
}

fn basic_engine() -> BasicFillEngine<FixedDecimal, SimpleSlippageModel<FixedDecimal>> {
    BasicFillEngine::new(num(1, 2), SimpleSlippageModel::new(num(1, 2)))
}

fn outcomes(
    messages: Vec<BrokerMessage<FixedDecimal>>,
) -> Vec<Result<FilledOrder<FixedDecimal>, OrderError<FixedDecimal>>> {
    let mut out = Vec::new();
    for message in messages {
        match message {
            BrokerMessage::FilledOrder(outcome) => out.push(outcome),
            BrokerMessage::SubmitOrder(_) => panic!("the engine reports outcomes only"),
        }
    }
    out
}

fn tick_at(symbol: SecuritySymbol, time: i64, price: i128) -> DataPoint<FixedDecimal> {
    DataPoint::new(symbol, time, DataType::Tick(num(price, 0)), Resolution::Tick)
}

#[test]
fn test_fill_engine_check_funds() {
    // Arrange
    let portfolio = funded_portfolio(Some(500000));

    let basic_fill_engine = basic_engine();

    let time = TimeSync::new(1000, Resolution::Day);

    let order = MarketOrder::new("1", aapl(), 1649289600000, num(10000, 1), Side::Buy);

    let expected = Ok(());

    // Act
    let result = basic_fill_engine.check_funds(order, num(1000, 1), &portfolio, time.get_time());

    // Assert
    assert_eq!(result, expected)
}

#[test]
fn test_fill_engine_check_funds_insufficient_cash() {
    // Arrange
    let portfolio = funded_portfolio(Some(500000));

    let basic_fill_engine = basic_engine();

    let time = TimeSync::new(1000, Resolution::Day);

    let order = MarketOrder::new("1", aapl(), 1649289600000, num(10000, 1), Side::Buy);

    let expected =
        Err(OrderError::new(OrderType::MarketOrder(order.clone()), 1000, "Insufficient Funds"));

    // Act
    let result = basic_fill_engine.check_funds(order, num(10000, 1), &portfolio, time.get_time());

    // Assert
    assert_eq!(result, expected)
}

#[test]
fn test_basic_fill_engine_check_fill() {
    // Arrange
    let portfolio = funded_portfolio(Some(500000));

    let mut basic_fill_engine = basic_engine();

    let mut data_line = setup_data_line_daily();

    basic_fill_engine.add_datapoint(data_line.pop().unwrap());

    let time = TimeSync::new(1000, Resolution::Day);

    let order = OrderType::MarketOrder(MarketOrder::new(
        "1",
        aapl(),
        1649289600000,
        num(10000, 1),
        Side::Buy,
    ));

    let expected = Ok(FilledOrder::new(
        order.clone(),
        1000,
        num(10000, 1),
        num(171160004, 6)
            .checked_add(num(1, 2).checked_mul(num(171160004, 6)).unwrap())
            .unwrap(),
        num(1, 2),
        false,
    ));

    // Act
    let result = basic_fill_engine.check_fill(order, &portfolio, time.get_time()).unwrap();

    // Assert
    assert_eq!(result, expected)
}

#[test]
fn test_basic_fill_engine_check_fill_insufficient_funds() {
    // Arrange
    let portfolio = funded_portfolio(None);

    let mut basic_fill_engine = basic_engine();

    let mut data_line = setup_data_line_daily();

    basic_fill_engine.add_datapoint(data_line.pop().unwrap());

    let time = TimeSync::new(1000, Resolution::Day);

    let order = OrderType::MarketOrder(MarketOrder::new(
        "1",
        aapl(),
        1649289600000,
        num(10000, 1),
        Side::Buy,
    ));

    let expected = Err(OrderError::new(order.clone(), 1000, "Insufficient Funds"));

    // Act
    let result = basic_fill_engine.check_fill(order, &portfolio, time.get_time()).unwrap();

    // Assert
    assert_eq!(result, expected)
}

#[test]
fn an_order_waits_while_its_instrument_has_no_data() {
    let portfolio = funded_portfolio(Some(500000));
    let engine = basic_engine();
    let order = MarketOrder::new("1", aapl(), 10, num(1, 0), Side::Buy);
    assert_eq!(engine.fill_market_order(order, &portfolio, 20), None);
}

#[test]
fn an_order_does_not_fill_on_the_data_of_its_own_time() {
    let portfolio = funded_portfolio(Some(500000));
    let mut engine = basic_engine();
    engine.add_datapoint(tick_at(aapl(), 1000, 5));
    let at = MarketOrder::new("1", aapl(), 1000, num(1, 0), Side::Buy);
    let after = MarketOrder::new("2", aapl(), 1001, num(1, 0), Side::Buy);
    let before = MarketOrder::new("3", aapl(), 999, num(1, 0), Side::Buy);
    assert_eq!(engine.fill_market_order(at, &portfolio, 2000), None);
    assert_eq!(engine.fill_market_order(after, &portfolio, 2000), None);
    assert!(engine.fill_market_order(before, &portfolio, 2000).unwrap().is_ok());
}

#[test]
fn a_buy_pays_the_ask_raised_by_the_slippage_and_a_sell_gets_the_bid_lowered() {
    let model = SimpleSlippageModel::new(num(1, 1));
    let point = tick_at(aapl(), 1000, 200);
    let buy = MarketOrder::new("1", aapl(), 0, num(1, 0), Side::Buy);
    let sell = MarketOrder::new("2", aapl(), 0, num(1, 0), Side::Sell);
    assert_eq!(model.get_slippage_approximation(&point, &buy), Some(num(220, 0)));
    assert_eq!(model.get_slippage_approximation(&point, &sell), Some(num(180, 0)));
    let bar = setup_data_line_daily().pop().unwrap();
    assert_eq!(
        model.get_slippage_approximation(&bar, &OrderType::MarketOrder(buy)),
        Some(num(1882760044, 7))
    );
    assert_eq!(
        SimpleSlippageModel::<FixedDecimal>::get_best_ask_price(&bar),
        num(171160004, 6)
    );
    assert_eq!(
        SimpleSlippageModel::<FixedDecimal>::get_best_bid_price(&point),
        num(200, 0)
    );
}

#[test]
fn a_price_without_a_value_rejects_the_order() {
    let portfolio = funded_portfolio(Some(500000));
    let max: i128 = 79228162514264337593543950335;
    let mut engine = BasicFillEngine::new(num(1, 2), SimpleSlippageModel::new(num(max, 0)));
    engine.add_datapoint(tick_at(aapl(), 1000, 5));
    let order = MarketOrder::new("1", aapl(), 10, num(1, 0), Side::Buy);
    let expected =
        Err(OrderError::new(OrderType::MarketOrder(order.clone()), 2000, "Price Unavailable"));
    assert_eq!(engine.fill_market_order(order, &portfolio, 2000), Some(expected));
}

#[test]
fn a_sell_needs_a_holding_of_at_least_its_volume() {
    let mut portfolio = funded_portfolio(Some(500000));
    let engine = basic_engine();
    let order = MarketOrder::new("1", aapl(), 10, num(5, 0), Side::Sell);
    assert_eq!(
        engine.check_funds(order.clone(), num(1, 0), &portfolio, 77),
        Err(OrderError::new(OrderType::MarketOrder(order.clone()), 77, "No Holdings"))
    );
    let bought = MarketOrder::new("0", aapl(), 10, num(4, 0), Side::Buy);
    portfolio.update_portfolio(Ok(FilledOrder::new(
        OrderType::MarketOrder(bought),
        20,
        num(4, 0),
        num(1, 0),
        num(0, 0),
        false,
    )));
    assert_eq!(
        engine.check_funds(order.clone(), num(1, 0), &portfolio, 77),
        Err(OrderError::new(OrderType::MarketOrder(order.clone()), 77, "Insufficient Holdings"))
    );
    let exact = MarketOrder::new("2", aapl(), 10, num(4, 0), Side::Sell);
    assert_eq!(engine.check_funds(exact, num(1, 0), &portfolio, 77), Ok(()));
}

#[test]
fn a_buy_is_short_of_funds_without_registration_balance_or_cost() {
    let engine = basic_engine();
    let order = MarketOrder::new("1", aapl(), 10, num(5, 0), Side::Buy);
    let short = Err(OrderError::new(OrderType::MarketOrder(order.clone()), 77, "Insufficient Funds"));
    let mut unregistered: Portfolio<FixedDecimal> = Portfolio::new(Currency::USD);
    unregistered.set_cash(Currency::USD, num(500000, 0));
    assert_eq!(engine.check_funds(order.clone(), num(1, 0), &unregistered, 77), short);
    let mut no_balance: Portfolio<FixedDecimal> = Portfolio::new(Currency::USD);
    no_balance.register_security(aapl(), Security::Equity(Equity::new(Currency::JPY, num(1, 2))));
    assert_eq!(engine.check_funds(order.clone(), num(1, 0), &no_balance, 77), short);
    let rich = funded_portfolio(Some(500000));
    let max: i128 = 79228162514264337593543950335;
    assert_eq!(engine.check_funds(order.clone(), num(max, 0), &rich, 77), short);
    assert_eq!(engine.check_funds(order.clone(), num(100000, 0), &rich, 77), Ok(()));
    assert_eq!(engine.check_funds(order.clone(), num(100001, 0), &rich, 77), short);
}

#[test]
fn the_commission_is_flat() {
    let engine = basic_engine();
    let small = MarketOrder::new("1", aapl(), 10, num(1, 0), Side::Buy);
    let large = OrderType::MarketOrder(MarketOrder::new("2", aapl(), 10, num(100000, 0), Side::Sell));
    assert_eq!(engine.get_commission(&small), num(1, 2));
    assert_eq!(engine.get_commission(&large), num(1, 2));
}

#[test]
fn a_cycle_sees_data_takes_orders_and_reports_each_decided_order_once() {
    let portfolio = funded_portfolio(Some(500000));
    let mut engine = basic_engine();
    let first = OrderType::MarketOrder(MarketOrder::new("a", aapl(), 1000, num(2, 0), Side::Buy));
    let second = OrderType::MarketOrder(MarketOrder::new(
        "b",
        SecuritySymbol::Equity(String::from("MSFT")),
        1000,
        num(2, 0),
        Side::Buy,
    ));
    let third = OrderType::MarketOrder(MarketOrder::new("c", aapl(), 1000, num(3, 0), Side::Sell));
    engine.add_message(BrokerMessage::SubmitOrder(first.clone()));
    engine.add_message(BrokerMessage::SubmitOrder(second.clone()));
    engine.add_message(BrokerMessage::SubmitOrder(third.clone()));
    engine.receive_data(tick_at(aapl(), 1000, 100));
    assert!(engine.next_cycle(&portfolio, 1000).is_ok());
    assert_eq!(engine.get_open_orders().len(), 3);
    assert!(engine.get_filled_orders().is_empty());

    engine.receive_data(tick_at(aapl(), 1500, 100));
    engine.receive_data(tick_at(aapl(), 2000, 200));
    assert!(engine.next_cycle(&portfolio, 2000).is_ok());
    let reported = outcomes(engine.get_filled_orders());
    assert_eq!(
        reported,
        vec![
            Ok(FilledOrder::new(first, 2000, num(2, 0), num(202, 0), num(1, 2), false)),
            Err(OrderError::new(third, 2000, "No Holdings")),
        ]
    );
    assert_eq!(engine.get_open_orders().len(), 1);
    assert_eq!(engine.get_open_orders().get(&String::from("b")), Some(&second));
    assert!(engine.get_filled_orders().is_empty());

    assert!(engine.next_cycle(&portfolio, 3000).is_ok());
    assert!(engine.get_filled_orders().is_empty());
    assert_eq!(engine.get_open_orders().len(), 1);
}

#[test]
fn receive_many_queues_points_in_their_order() {
    let portfolio = funded_portfolio(Some(500000));
    let mut engine = basic_engine();
    let mut points = vec![tick_at(aapl(), 3000, 300), tick_at(aapl(), 2000, 200)];
    engine.receive_many(&mut points);
    assert!(points.is_empty());
    engine.add_message(BrokerMessage::SubmitOrder(OrderType::MarketOrder(MarketOrder::new(
        "a",
        aapl(),
        2500,
        num(1, 0),
        Side::Buy,
    ))));
    assert!(engine.next_cycle(&portfolio, 3000).is_ok());
    assert!(engine.get_filled_orders().is_empty());
    assert_eq!(engine.get_open_orders().len(), 1);
}

#[test]
fn insufficient_funds_scenario() {
    let mut portfolio: Portfolio<FixedDecimal> = Portfolio::new(Currency::USD);
    portfolio.set_cash(Currency::USD, num(0, 0));
    portfolio.register_security(aapl(), Security::Equity(Equity::new(Currency::USD, num(1, 2))));
    let mut broker = BacktestingBroker::new(num(1, 2), basic_engine());

    let order = OrderType::MarketOrder(MarketOrder::new("1", aapl(), 1000, num(1000, 0), Side::Buy));
    let mut same_cycle = vec![tick_at(aapl(), 1000, 100)];
    broker.receive_data(&mut same_cycle);
    broker.submit_order(order.clone());
    assert_eq!(broker.get_open_orders().len(), 1);

    assert!(broker.next_cycle(&mut portfolio, 1000).is_ok());
    assert_eq!(broker.get_open_orders().len(), 1);
    assert_eq!(portfolio.get_filled_orders().len(), 0);

    let mut next = vec![tick_at(aapl(), 2000, 100)];
    broker.receive_data(&mut next);
    assert!(broker.next_cycle(&mut portfolio, 2000).is_ok());

    assert_eq!(broker.get_open_orders().len(), 0);
    assert_eq!(
        portfolio.get_filled_orders().get(&String::from("1")),
        Some(&Err(OrderError::new(order, 2000, "Insufficient Funds")))
    );
    assert_eq!(portfolio.get_cash(Currency::USD), Some(&num(0, 0)));
    assert_eq!(portfolio.get_holding(aapl()), None);
}

#[test]
fn the_broker_applies_fills_to_the_portfolio_and_closes_the_orders() {
    let mut portfolio = funded_portfolio(Some(1000));
    let mut broker = BacktestingBroker::new(num(1, 2), BasicFillEngine::new(
        num(5, 0),
        SimpleSlippageModel::new(num(0, 0)),
    ));
    let buy = OrderType::MarketOrder(MarketOrder::new("buy", aapl(), 1000, num(3, 0), Side::Buy));
    let sell = OrderType::MarketOrder(MarketOrder::new("sell", aapl(), 2000, num(2, 0), Side::Sell));
    broker.submit_order(buy.clone());
    let mut points = vec![tick_at(aapl(), 2000, 100)];
    broker.receive_data(&mut points);
    assert!(broker.next_cycle(&mut portfolio, 2000).is_ok());
    assert_eq!(portfolio.get_cash(Currency::USD), Some(&num(695, 0)));
    assert_eq!(portfolio.get_holding(aapl()), Some(Holding::Equity(num(3, 0))));
    assert_eq!(broker.get_open_orders().len(), 0);

    broker.submit_order(sell.clone());
    let mut points = vec![tick_at(aapl(), 3000, 150)];
    broker.receive_data(&mut points);
    assert!(broker.next_cycle(&mut portfolio, 3000).is_ok());
    assert_eq!(portfolio.get_cash(Currency::USD), Some(&num(990, 0)));
    assert_eq!(portfolio.get_holding(aapl()), Some(Holding::Equity(num(1, 0))));
    assert_eq!(
        portfolio.get_filled_orders().get(&String::from("sell")),
        Some(&Ok(FilledOrder::new(sell, 3000, num(2, 0), num(150, 0), num(5, 0), false)))
    );
    assert_eq!(
        portfolio.get_filled_orders().get(&String::from("buy")),
        Some(&Ok(FilledOrder::new(buy, 2000, num(3, 0), num(100, 0), num(5, 0), false)))
    );
}

#[test]
fn the_funds_of_one_cycle_are_checked_against_the_ledger_at_its_start() {
    let mut portfolio = funded_portfolio(Some(100));
    let mut broker = BacktestingBroker::new(num(0, 0), BasicFillEngine::new(
        num(0, 0),
        SimpleSlippageModel::new(num(0, 0)),
    ));
    broker.submit_order(OrderType::MarketOrder(MarketOrder::new("a", aapl(), 0, num(1, 0), Side::Buy)));
    broker.submit_order(OrderType::MarketOrder(MarketOrder::new("b", aapl(), 0, num(1, 0), Side::Buy)));
    let mut points = vec![tick_at(aapl(), 1, 80)];
    broker.receive_data(&mut points);
    assert!(broker.next_cycle(&mut portfolio, 1).is_ok());
    assert_eq!(portfolio.get_cash(Currency::USD), Some(&num(-60, 0)));
    assert_eq!(portfolio.get_holding(aapl()), Some(Holding::Equity(num(2, 0))));
}

#[test]
fn an_order_with_the_id_of_an_open_one_takes_its_place() {
    let mut broker = BacktestingBroker::new(num(0, 0), basic_engine());
    broker.submit_order(OrderType::MarketOrder(MarketOrder::new("a", aapl(), 0, num(1, 0), Side::Buy)));
    let second = OrderType::MarketOrder(MarketOrder::new("a", aapl(), 5, num(2, 0), Side::Sell));
    broker.submit_order(second.clone());
    assert_eq!(broker.get_open_orders().len(), 1);
    assert_eq!(broker.get_open_orders().get(&String::from("a")), Some(&second));
}

#[test]
fn orders_tell_what_they_were_made_of() {
    let order = MarketOrder::new("7", aapl(), 123, num(15, 1), Side::Sell);
    assert_eq!(order.get_id(), "7");
    assert_eq!(order.get_symbol(), aapl());
    assert_eq!(order.get_timestamp(), 123);
    assert_eq!(order.get_volume(), num(15, 1));
    assert_eq!(order.get_side(), Side::Sell);
    let any = OrderType::MarketOrder(order.clone());
    assert_eq!(any.get_id(), "7");
    assert_eq!(any.get_symbol(), aapl());
    assert_eq!(any.get_timestamp(), 123);
    assert_eq!(any.get_volume(), num(15, 1));
    assert_eq!(any.get_side(), Side::Sell);
    let filled = FilledOrder::new(any.clone(), 456, num(15, 1), num(4, 0), num(1, 1), false);
    assert_eq!(filled.get_id(), "7");
    assert_eq!(filled.get_symbol(), aapl());
    assert_eq!(filled.get_side(), Side::Sell);
    assert_eq!(filled.get_volume(), num(15, 1));
    assert_eq!(filled.get_price(), num(4, 0));
    assert_eq!(filled.get_cost(), Some(num(6, 0)));
    assert_eq!(filled.get_commission(), num(1, 1));
    let max: i128 = 79228162514264337593543950335;
    let huge = FilledOrder::new(any.clone(), 456, num(max, 0), num(4, 0), num(1, 1), false);
    assert_eq!(huge.get_cost(), None);
    let error = OrderError::new(any, 456, "No Holdings");
    assert_eq!(error.get_id(), "7");
    assert_eq!(error.get_symbol(), aapl());
    assert_eq!(error.message(), "No Holdings");
}

/// A model that moves every price by one unit against the order.
struct OneUnit {}

impl SlippageModel for OneUnit {
    type NumberType = FixedDecimal;

    fn price_spec(&self, _datapoint: DataPoint<FixedDecimal>, _side: Side) -> Option<FixedDecimal> {
        unreachable!()
    }

    fn get_slippage_approximation<O: Order>(
        &self,
        datapoint: &DataPoint<FixedDecimal>,
        order: &O,
    ) -> Option<FixedDecimal> {
        match order.get_side() {
            Side::Buy => Self::get_best_ask_price(datapoint).checked_add(num(1, 0)),
            Side::Sell => Self::get_best_bid_price(datapoint).checked_sub(num(1, 0)),
        }
    }
}

#[test]
fn the_engine_fills_at_the_price_of_whatever_model_it_was_given() {
    let portfolio = funded_portfolio(Some(500000));
    let mut engine = BasicFillEngine::new(num(2, 0), OneUnit {});
    engine.add_datapoint(tick_at(aapl(), 1000, 50));
    let order = MarketOrder::new("1", aapl(), 10, num(3, 0), Side::Buy);
    let expected = Ok(FilledOrder::new(
        OrderType::MarketOrder(order.clone()),
        2000,
        num(3, 0),
        num(51, 0),
        num(2, 0),
        false,
    ));
    assert_eq!(engine.fill_market_order(order, &portfolio, 2000), Some(expected));
}
