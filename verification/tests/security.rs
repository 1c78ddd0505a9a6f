use rt_core::broker::error::BrokerError;
use rt_core::data::error::DataError;
use rt_core::data::{select_symbol_properties, DataSymbolProperties};
use rt_core::decimal::FixedDecimal;
use rt_core::error::Error;
use rt_core::security::{Currency, Equity, Security, SecuritySymbol, SecurityType};
use rt_core::table::Table;
use rt_core::utils::{Merge, MergeByRef};

fn sec_dec(mantissa: i128, scale: u32) -> FixedDecimal {
    FixedDecimal::new(mantissa, scale).unwrap()
}

fn row(market: &str, symbol: &str, kind: SecurityType, lot: i128) -> DataSymbolProperties<FixedDecimal> {
    DataSymbolProperties {
        market: String::from(market),
        symbol: String::from(symbol),
        security_type: kind,
        description: String::from(""),
        quote_currency: Currency::USD,
        contract_multiplier: sec_dec(1, 0),
        minimum_price_variation: sec_dec(1, 2),
        lot_size: sec_dec(lot, 0),
        market_ticker: None,
        minimum_order_size: None,
        price_magnifier: None,
    }
}

#[test]
fn a_symbol_knows_its_ticker_and_its_kind() {
    let equity = SecuritySymbol::Equity(String::from("AAPL"));
    assert_eq!(equity.symbol(), "AAPL");
    assert_eq!(equity.security_type(), SecurityType::Equity);
    let pair = SecuritySymbol::FX(Currency::EUR, Currency::USD);
    assert_eq!(pair.symbol(), "");
    assert_eq!(pair.security_type(), SecurityType::FX);
}

#[test]
fn symbols_are_the_same_by_ticker_or_by_pair() {
    let a = SecuritySymbol::Equity(String::from("AAPL"));
    assert!(a.same(&SecuritySymbol::Equity(String::from("AAPL"))));
    assert!(!a.same(&SecuritySymbol::Equity(String::from("AAPl"))));
    assert!(!a.same(&SecuritySymbol::FX(Currency::EUR, Currency::USD)));
    let pair = SecuritySymbol::FX(Currency::EUR, Currency::USD);
    assert!(pair.same(&SecuritySymbol::FX(Currency::EUR, Currency::USD)));
    assert!(!pair.same(&SecuritySymbol::FX(Currency::USD, Currency::EUR)));
    assert!(!pair.same(&a));
    assert_eq!(a.clone(), a);
}

#[test]
fn a_security_tells_its_currency_and_price_step() {
    let equity = Equity::new(Currency::GBP, sec_dec(1, 2));
    assert_eq!(equity.get_currency(), Currency::GBP);
    let security = Security::Equity(equity);
    assert_eq!(security.security_type(), SecurityType::Equity);
    assert_eq!(security.get_currency(), Currency::GBP);
    assert_eq!(security.get_minimum_price_variation(), sec_dec(1, 2));
}

#[test]
fn the_row_that_names_the_symbol_comes_before_the_row_that_covers_its_market() {
    let rows = vec![
        row("usa", "*", SecurityType::Equity, 1),
        row("usa", "AAPL", SecurityType::Equity, 2),
        row("usa", "AAPL", SecurityType::Equity, 3),
    ];
    let aapl = SecuritySymbol::Equity(String::from("AAPL"));
    assert_eq!(select_symbol_properties(&rows, &aapl, "usa"), Some(1));
    assert_eq!(select_symbol_properties(&rows, &aapl, "nowhere"), Some(1));
    let msft = SecuritySymbol::Equity(String::from("MSFT"));
    assert_eq!(select_symbol_properties(&rows, &msft, "usa"), Some(0));
    assert_eq!(select_symbol_properties(&rows, &msft, "lse"), None);
}

#[test]
fn a_covering_row_must_match_market_and_kind() {
    let rows = vec![
        row("lse", "*", SecurityType::Equity, 1),
        row("usa", "*", SecurityType::FX, 2),
        row("usa", "*", SecurityType::Equity, 3),
        row("usa", "*", SecurityType::Equity, 4),
    ];
    let msft = SecuritySymbol::Equity(String::from("MSFT"));
    assert_eq!(select_symbol_properties(&rows, &msft, "usa"), Some(2));
    let empty: Vec<DataSymbolProperties<FixedDecimal>> = Vec::new();
    assert_eq!(select_symbol_properties(&empty, &msft, "usa"), None);
}

#[test]
fn properties_become_an_equity_in_the_quote_currency() {
    let properties = row("usa", "*", SecurityType::Equity, 100);
    assert_eq!(
        properties.to_security(),
        Security::Equity(Equity::new(Currency::USD, sec_dec(100, 0)))
    );
}

#[test]
fn every_error_has_its_text() {
    assert_eq!(Error::IncompleteBuilder(String::from("a")).message(), "a");
    assert_eq!(Error::OrderError(String::from("b")).message(), "b");
    assert_eq!(Error::FXConversionError(String::from("c")).message(), "c");
    assert_eq!(Error::from(BrokerError::NextCycleError(String::from("d"))).message(), "d");
    assert_eq!(Error::from(BrokerError::FillEngineError(String::from("e"))).message(), "e");
    assert_eq!(Error::from(BrokerError::InsufficientFunds(String::from("f"))).message(), "f");
    assert_eq!(Error::from(DataError::ConnectionError).message(), "Failed to connect Feed");
    assert!(matches!(Error::from(DataError::ConnectionError), Error::DataError(_)));
    assert!(matches!(
        Error::from(BrokerError::NextCycleError(String::from("d"))),
        Error::BrokerError(_)
    ));
}

#[test]
fn a_table_keeps_one_entry_per_key_in_order_of_arrival() {
    let mut table: Table<String, i64> = Table::new();
    assert!(table.is_empty());
    table.insert(String::from("b"), 1);
    table.insert(String::from("a"), 2);
    table.insert(String::from("b"), 3);
    assert_eq!(table.len(), 2);
    assert_eq!(table.key_at(0), "b");
    assert_eq!(*table.value_at(0), 3);
    assert_eq!(table.key_at(1), "a");
    assert_eq!(table.find(&String::from("a")), Some(1));
    assert_eq!(table.find(&String::from("c")), None);
    assert_eq!(table.get(&String::from("b")), Some(&3));
    assert!(table.contains_key(&String::from("a")));
    table.remove(&String::from("b"));
    assert_eq!(table.len(), 1);
    assert_eq!(table.key_at(0), "a");
    table.remove(&String::from("zz"));
    assert_eq!(table.len(), 1);
    assert!(!table.is_empty());
}

struct Total(i64);

impl Merge for Total {
    fn merges(_: Self, _: Self, _: Self) -> bool {
        unreachable!()
    }

    fn merge(&mut self, other: Self) {
        self.0 += other.0;
    }
}

impl MergeByRef for Total {
    fn merges_by_ref(_: Self, _: Self, _: Self, _: Self) -> bool {
        unreachable!()
    }

    fn merge_by_ref(&mut self, other: &mut Self) {
        self.0 += other.0;
        other.0 = 0;
    }
}

#[test]
fn merging_options_takes_the_other_where_there_is_nothing() {
    let mut nothing: Option<Total> = None;
    nothing.merge(Some(Total(3)));
    assert_eq!(nothing.as_ref().unwrap().0, 3);
    nothing.merge(None);
    assert_eq!(nothing.as_ref().unwrap().0, 3);
    nothing.merge(Some(Total(4)));
    assert_eq!(nothing.as_ref().unwrap().0, 7);
    let mut empty: Option<Total> = None;
    empty.merge(None);
    assert!(empty.is_none());
}

#[test]
fn merging_options_by_reference_empties_what_was_taken_whole() {
    let mut mine: Option<Total> = None;
    let mut theirs = Some(Total(3));
    mine.merge_by_ref(&mut theirs);
    assert_eq!(mine.as_ref().unwrap().0, 3);
    assert!(theirs.is_none());
    let mut more = Some(Total(4));
    mine.merge_by_ref(&mut more);
    assert_eq!(mine.as_ref().unwrap().0, 7);
    assert_eq!(more.as_ref().unwrap().0, 0);
    let mut none: Option<Total> = None;
    mine.merge_by_ref(&mut none);
    assert_eq!(mine.as_ref().unwrap().0, 7);
    assert!(none.is_none());
}
