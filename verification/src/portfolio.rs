//! The portfolio ledger: cash per currency, holdings per instrument, the
//! details of the registered instruments, and the latest outcome of every
//! order.

use vstd::prelude::*;
use crate::DataNumberType;
use crate::PortfolioNumberType;
use crate::broker::orders::FilledOrder;
use crate::broker::orders::Order;
use crate::broker::orders::OrderError;
use crate::broker::orders::Side;
use crate::broker::orders::outcome_id;
use crate::security::Currency;
use crate::security::Security;
use crate::security::SecuritySymbol;
use crate::security::SymbolId;
use crate::table::Table;

verus! {

/// The number of units of an instrument that a portfolio holds.
#[derive(Debug, Clone, Copy, PartialEq)]
pub enum Holding<T: PortfolioNumberType> {
    Equity(T),
    FX(T),
}

impl<T: PortfolioNumberType> Holding<T> {
    /// The number of units held, as a specification.
    pub open spec fn spec_volume(&self) -> T {
        match self {
            Holding::Equity(x) => *x,
            Holding::FX(x) => *x,
        }
    }

    /// The same kind of holding with another number of units.
    pub open spec fn with_volume(&self, volume: T) -> Holding<T> {
        match self {
            Holding::Equity(_) => Holding::Equity(volume),
            Holding::FX(_) => Holding::FX(volume),
        }
    }

    /// The holding after `volume` units were added, where the sum has a value.
    pub open spec fn plus(&self, volume: T) -> Option<Holding<T>> {
        match self.spec_volume().add_spec(volume) {
            Some(v) => Some(self.with_volume(v)),
            None => None,
        }
    }

    /// The holding after `volume` units were taken away, where the difference
    /// has a value.
    pub open spec fn minus(&self, volume: T) -> Option<Holding<T>> {
        match self.spec_volume().sub_spec(volume) {
            Some(v) => Some(self.with_volume(v)),
            None => None,
        }
    }

    /// A first holding of an instrument, of the kind that the symbol names.
    pub open spec fn of(symbol: SymbolId, volume: T) -> Holding<T> {
        match symbol {
            SymbolId::Equity(_) => Holding::Equity(volume),
            SymbolId::FX(_, _) => Holding::FX(volume),
        }
    }

    /// Adds `volume` units. Where the sum has no value the holding stays as it
    /// is and the answer is `false`.
    pub fn add(&mut self, volume: T) -> (done: bool)
        ensures
            done == old(self).plus(volume).is_some(),
            *final(self) == (match old(self).plus(volume) {
                Some(h) => h,
                None => *old(self),
            }),
    {
        match self.get_volume().checked_add(volume) {
            Some(v) => {
                *self = match *self {
                    Holding::Equity(_) => Holding::Equity(v),
                    Holding::FX(_) => Holding::FX(v),
                };
                true
            },
            None => false,
        }
    }

    /// Takes `volume` units away. Where the difference has no value the
    /// holding stays as it is and the answer is `false`.
    pub fn sub(&mut self, volume: T) -> (done: bool)
        ensures
            done == old(self).minus(volume).is_some(),
            *final(self) == (match old(self).minus(volume) {
                Some(h) => h,
                None => *old(self),
            }),
    {
        match self.get_volume().checked_sub(volume) {
            Some(v) => {
                *self = match *self {
                    Holding::Equity(_) => Holding::Equity(v),
                    Holding::FX(_) => Holding::FX(v),
                };
                true
            },
            None => false,
        }
    }

    /// A first holding of an instrument, of the kind that the symbol names.
    pub fn new(symbol: &SecuritySymbol, volume: T) -> (r: Self)
        ensures
            r == Self::of(symbol@, volume),
    {
        match symbol {
            SecuritySymbol::Equity(_) => Holding::Equity(volume),
            SecuritySymbol::FX(_, _) => Holding::FX(volume),
        }
    }

    /// The number of units held.
    #[verifier::when_used_as_spec(spec_volume)]
    pub fn get_volume(&self) -> (r: T)
        ensures
            r == self.spec_volume(),
    {
        match self {
            Holding::Equity(amnt) => *amnt,
            Holding::FX(amnt) => *amnt,
        }
    }
}

/// An amount of cash in one currency.
#[derive(Debug, Clone, Copy, PartialEq)]
pub struct Cash<T: PortfolioNumberType> {
    pub volume: T,
    pub currency: Currency,
}

impl<T: PortfolioNumberType> Cash<T> {
    pub fn new(volume: T, currency: Currency) -> (r: Self)
        ensures
            r == (Cash { volume, currency }),
    {
        Cash { volume, currency }
    }
}

/// What a ledger holds, as values.
pub ghost struct LedgerState<T: DataNumberType + PortfolioNumberType> {
    pub reporting_currency: Currency,
    pub cash: Map<Currency, T>,
    pub holdings: Map<SymbolId, Holding<T>>,
    pub history: Map<Seq<char>, Result<FilledOrder<T>, OrderError<T>>>,
    pub registered: Map<SymbolId, Security<T>>,
}

/// What a buy takes out of the cash: price times volume, plus commission.
pub open spec fn debit<T: DataNumberType>(filled: FilledOrder<T>) -> Option<T> {
    match filled.spec_cost() {
        Some(cost) => cost.add_spec(filled.commission),
        None => None,
    }
}

/// What a sell puts into the cash: price times volume, less commission.
pub open spec fn credit<T: DataNumberType>(filled: FilledOrder<T>) -> Option<T> {
    match filled.spec_cost() {
        Some(cost) => cost.sub_spec(filled.commission),
        None => None,
    }
}

/// The balance of a currency after a buy, where it has a value.
pub open spec fn balance_after_buy<T: DataNumberType>(balance: T, filled: FilledOrder<T>) -> Option<
    T,
> {
    match debit(filled) {
        Some(d) => balance.sub_spec(d),
        None => None,
    }
}

/// The balance of a currency after a sell, where it has a value.
pub open spec fn balance_after_sell<T: DataNumberType>(
    balance: T,
    filled: FilledOrder<T>,
) -> Option<T> {
    match credit(filled) {
        Some(c) => balance.add_spec(c),
        None => None,
    }
}

/// The cash after a fill in an instrument priced in `currency`. A currency
/// without a balance is left without one. `None` where the new balance has no
/// value.
pub open spec fn cash_after<T: DataNumberType>(
    cash: Map<Currency, T>,
    currency: Currency,
    filled: FilledOrder<T>,
) -> Option<Map<Currency, T>> {
    if !cash.contains_key(currency) {
        Some(cash)
    } else {
        let balance = match filled.order.spec_side() {
            Side::Buy => balance_after_buy(cash[currency], filled),
            Side::Sell => balance_after_sell(cash[currency], filled),
        };
        match balance {
            Some(b) => Some(cash.insert(currency, b)),
            None => None,
        }
    }
}

/// The holding of the instrument after a fill: a buy adds to the holding or
/// starts one, a sell takes away from it. `None` where there is nothing to
/// sell from, or where the new volume has no value.
pub open spec fn holding_after<T: DataNumberType + PortfolioNumberType>(
    holdings: Map<SymbolId, Holding<T>>,
    filled: FilledOrder<T>,
) -> Option<Holding<T>> {
    let symbol = filled.order.spec_symbol()@;
    match filled.order.spec_side() {
        Side::Buy => if holdings.contains_key(symbol) {
            holdings[symbol].plus(filled.volume)
        } else {
            Some(Holding::of(symbol, filled.volume))
        },
        Side::Sell => if holdings.contains_key(symbol) {
            holdings[symbol].minus(filled.volume)
        } else {
            None
        },
    }
}

/// The ledger after the holdings and the cash took a fill. The fill changes
/// both or neither: the ledger stays as it is where the instrument is not
/// registered, where a sell finds no holding, and where a new volume or
/// balance has no value in the number type.
pub open spec fn settle<T: DataNumberType + PortfolioNumberType>(
    state: LedgerState<T>,
    filled: FilledOrder<T>,
) -> LedgerState<T> {
    let symbol = filled.order.spec_symbol()@;
    if !state.registered.contains_key(symbol) {
        state
    } else {
        let currency = state.registered[symbol].spec_currency();
        match (holding_after(state.holdings, filled), cash_after(state.cash, currency, filled)) {
            (Some(holding), Some(cash)) => LedgerState {
                holdings: state.holdings.insert(symbol, holding),
                cash,
                ..state
            },
            _ => state,
        }
    }
}

/// The ledger after an outcome was applied: a fill is settled, and the
/// outcome, fill or rejection, becomes the history's entry for its order id.
pub open spec fn apply<T: DataNumberType + PortfolioNumberType>(
    state: LedgerState<T>,
    outcome: Result<FilledOrder<T>, OrderError<T>>,
) -> LedgerState<T> {
    let settled = match outcome {
        Ok(filled) => settle(state, filled),
        Err(_) => state,
    };
    LedgerState { history: settled.history.insert(outcome_id(outcome), outcome), ..settled }
}

/// Funds conservation of a buy: where the fill goes through, the balance of
/// the instrument's currency falls by price times volume plus commission, the
/// holding grows by the volume, and nothing else changes.
pub proof fn lemma_buy_conserves_funds<T: DataNumberType + PortfolioNumberType>(
    state: LedgerState<T>,
    filled: FilledOrder<T>,
)
    requires
        filled.order.spec_side() == Side::Buy,
        state.registered.contains_key(filled.order.spec_symbol()@),
        state.cash.contains_key(state.registered[filled.order.spec_symbol()@].spec_currency()),
        holding_after(state.holdings, filled) is Some,
        cash_after(
            state.cash,
            state.registered[filled.order.spec_symbol()@].spec_currency(),
            filled,
        ) is Some,
    ensures
        ({
            let symbol = filled.order.spec_symbol()@;
            let currency = state.registered[symbol].spec_currency();
            let after = settle(state, filled);
            &&& filled.price.mul_spec(filled.volume) matches Some(cost)
            &&& cost.add_spec(filled.commission) matches Some(total)
            &&& state.cash[currency].sub_spec(total) == Some(after.cash[currency])
            &&& after.cash == state.cash.insert(currency, after.cash[currency])
            &&& after.holdings == state.holdings.insert(symbol, after.holdings[symbol])
            &&& state.holdings.contains_key(symbol) ==> state.holdings[symbol].spec_volume().add_spec(
                filled.volume,
            ) == Some(after.holdings[symbol].spec_volume())
            &&& !state.holdings.contains_key(symbol) ==> after.holdings[symbol].spec_volume()
                == filled.volume
            &&& after.history == state.history
            &&& after.registered == state.registered
        }),
{
}

/// Funds conservation of a sell: where the fill goes through, the balance of
/// the instrument's currency grows by price times volume less commission, the
/// holding falls by the volume, and nothing else changes.
pub proof fn lemma_sell_conserves_funds<T: DataNumberType + PortfolioNumberType>(
    state: LedgerState<T>,
    filled: FilledOrder<T>,
)
    requires
        filled.order.spec_side() == Side::Sell,
        state.registered.contains_key(filled.order.spec_symbol()@),
        state.cash.contains_key(state.registered[filled.order.spec_symbol()@].spec_currency()),
        holding_after(state.holdings, filled) is Some,
        cash_after(
            state.cash,
            state.registered[filled.order.spec_symbol()@].spec_currency(),
            filled,
        ) is Some,
    ensures
        ({
            let symbol = filled.order.spec_symbol()@;
            let currency = state.registered[symbol].spec_currency();
            let after = settle(state, filled);
            &&& filled.price.mul_spec(filled.volume) matches Some(cost)
            &&& cost.sub_spec(filled.commission) matches Some(net)
            &&& state.cash[currency].add_spec(net) == Some(after.cash[currency])
            &&& after.cash == state.cash.insert(currency, after.cash[currency])
            &&& after.holdings == state.holdings.insert(symbol, after.holdings[symbol])
            &&& state.holdings.contains_key(symbol)
            &&& state.holdings[symbol].spec_volume().sub_spec(filled.volume) == Some(
                after.holdings[symbol].spec_volume(),
            )
            &&& after.history == state.history
            &&& after.registered == state.registered
        }),
{
}

/// A rejected order leaves cash and holdings as they were.
pub proof fn lemma_rejection_moves_nothing<T: DataNumberType + PortfolioNumberType>(
    state: LedgerState<T>,
    rejected: OrderError<T>,
)
    ensures
        apply(state, Err(rejected)).cash == state.cash,
        apply(state, Err(rejected)).holdings == state.holdings,
        apply(state, Err(rejected)).registered == state.registered,
{
}

/// The history keeps one entry per order id, the latest: after two outcomes
/// with the same id the history is the one before them with the second
/// outcome under that id, and no other id has come or gone.
pub proof fn lemma_history_keeps_latest<T: DataNumberType + PortfolioNumberType>(
    state: LedgerState<T>,
    first: Result<FilledOrder<T>, OrderError<T>>,
    second: Result<FilledOrder<T>, OrderError<T>>,
)
    requires
        outcome_id(first) == outcome_id(second),
    ensures
        apply(apply(state, first), second).history == state.history.insert(
            outcome_id(second),
            second,
        ),
        apply(apply(state, first), second).history.dom() == state.history.dom().insert(
            outcome_id(second),
        ),
        apply(apply(state, first), second).history[outcome_id(second)] == second,
{
    let once = apply(state, first);
    let twice = apply(once, second);
    assert(once.history == state.history.insert(outcome_id(first), first)) by {
        match first {
            Ok(filled) => {},
            Err(_) => {},
        }
    }
    assert(twice.history == once.history.insert(outcome_id(second), second)) by {
        match second {
            Ok(filled) => {},
            Err(_) => {},
        }
    }
}

/// The ledger of a run.
pub struct Portfolio<T: DataNumberType + PortfolioNumberType> {
    reporting_currency: Currency,
    cash_holdings: Table<Currency, T>,
    holdings: Table<SecuritySymbol, Holding<T>>,
    filled_orders: Table<String, Result<FilledOrder<T>, OrderError<T>>>,
    registered_securities: Table<SecuritySymbol, Security<T>>,
}

impl<T: DataNumberType + PortfolioNumberType> View for Portfolio<T> {
    type V = LedgerState<T>;

    closed spec fn view(&self) -> LedgerState<T> {
        LedgerState {
            reporting_currency: self.reporting_currency,
            cash: self.cash_holdings@,
            holdings: self.holdings@,
            history: self.filled_orders@,
            registered: self.registered_securities@,
        }
    }
}

impl<T: DataNumberType + PortfolioNumberType> Portfolio<T> {
    /// The history table, as a specification.
    pub closed spec fn history_table(&self) -> Table<
        String,
        Result<FilledOrder<T>, OrderError<T>>,
    > {
        self.filled_orders
    }

    /// A ledger without holdings, instruments or history, with one unit of
    /// the reporting currency.
    pub fn new(reporting_currency: Currency) -> (r: Self)
        ensures
            r@ == (LedgerState {
                reporting_currency,
                cash: Map::<Currency, T>::empty().insert(reporting_currency, T::from_i8_spec(1)),
                holdings: Map::empty(),
                history: Map::empty(),
                registered: Map::empty(),
            }),
    {
        let mut cash: Table<Currency, T> = Table::new();
        cash.insert(reporting_currency, T::from_i8(1));
        Portfolio {
            reporting_currency,
            cash_holdings: cash,
            holdings: Table::new(),
            filled_orders: Table::new(),
            registered_securities: Table::new(),
        }
    }

    /// Applies the outcome of an order: settles a fill in holdings and cash,
    /// and records the outcome, fill or rejection, under the order's id in
    /// place of any earlier one.
    pub fn update_portfolio(&mut self, order: Result<FilledOrder<T>, OrderError<T>>)
        ensures
            final(self)@ == apply(old(self)@, order),
    {
        let id = match &order {
            Ok(filled) => {
                self.update_holdings(filled);
                filled.get_id()
            },
            Err(e) => e.get_id(),
        };
        self.filled_orders.insert(id, order);
    }

    /// Settles a fill in holdings and cash.
    fn update_holdings(&mut self, filled: &FilledOrder<T>)
        ensures
            final(self)@ == settle(old(self)@, *filled),
    {
        let symbol = filled.get_symbol();
        let currency = match self.registered_securities.get(&symbol) {
            Some(details) => details.get_currency(),
            None => {
                return ;
            },
        };
        let volume = filled.get_volume();
        let held: Option<Holding<T>> = match self.holdings.get(&symbol) {
            Some(h) => Some(*h),
            None => None,
        };
        let holding: Option<Holding<T>> = match filled.get_side() {
            Side::Buy => match held {
                Some(h) => {
                    let mut h = h;
                    if h.add(volume) {
                        Some(h)
                    } else {
                        None
                    }
                },
                None => Some(Holding::new(&symbol, volume)),
            },
            Side::Sell => match held {
                Some(h) => {
                    let mut h = h;
                    if h.sub(volume) {
                        Some(h)
                    } else {
                        None
                    }
                },
                None => None,
            },
        };
        let holding = match holding {
            Some(h) => h,
            None => {
                return ;
            },
        };
        let balance: Option<T> = match self.cash_holdings.get(&currency) {
            Some(b) => Some(*b),
            None => None,
        };
        match balance {
            Some(b) => {
                let after = match filled.get_side() {
                    Side::Buy => Self::sub_cash(b, filled),
                    Side::Sell => Self::add_cash(b, filled),
                };
                match after {
                    Some(after) => {
                        self.cash_holdings.insert(currency, after);
                        self.holdings.insert(symbol, holding);
                    },
                    None => {},
                }
            },
            None => {
                self.holdings.insert(symbol, holding);
            },
        }
    }

    /// The balance after a sell's proceeds came in.
    fn add_cash(balance: T, order: &FilledOrder<T>) -> (r: Option<T>)
        ensures
            r == balance_after_sell(balance, *order),
    {
        match order.get_cost() {
            Some(cost) => match cost.checked_sub(order.get_commission()) {
                Some(net) => balance.checked_add(net),
                None => None,
            },
            None => None,
        }
    }

    /// The balance after a buy was paid for.
    fn sub_cash(balance: T, order: &FilledOrder<T>) -> (r: Option<T>)
        ensures
            r == balance_after_buy(balance, *order),
    {
        match order.get_cost() {
            Some(cost) => match cost.checked_add(order.get_commission()) {
                Some(total) => balance.checked_sub(total),
                None => None,
            },
            None => None,
        }
    }

    /// The currency the portfolio reports in.
    pub fn reporting_currency(&self) -> (r: Currency)
        ensures
            r == self@.reporting_currency,
    {
        self.reporting_currency
    }

    /// The balance of a currency.
    pub fn get_cash(&self, currency: Currency) -> (r: Option<&T>)
        ensures
            r is Some <==> self@.cash.contains_key(currency),
            r matches Some(b) ==> *b == self@.cash[currency],
    {
        self.cash_holdings.get(&currency)
    }

    /// Sets the balance of a currency.
    pub fn set_cash(&mut self, currency: Currency, cash: T)
        ensures
            final(self)@ == (LedgerState { cash: old(self)@.cash.insert(currency, cash), ..old(self)@ }),
    {
        self.cash_holdings.insert(currency, cash);
    }

    /// The latest outcome of every order, by order id, in the order in which
    /// the ids first came.
    pub fn get_filled_orders(&self) -> (r: &Table<String, Result<FilledOrder<T>, OrderError<T>>>)
        ensures
            r@ == self@.history,
            *r == self.history_table(),
    {
        &self.filled_orders
    }

    /// The holding of an instrument.
    pub fn get_holding(&self, symbol: SecuritySymbol) -> (r: Option<Holding<T>>)
        ensures
            r == (if self@.holdings.contains_key(symbol@) {
                Some(self@.holdings[symbol@])
            } else {
                None
            }),
    {
        match self.holdings.get(&symbol) {
            Some(h) => Some(*h),
            None => None,
        }
    }

    /// Registers an instrument's details; a later registration replaces an
    /// earlier one.
    pub fn register_security(&mut self, symbol: SecuritySymbol, details: Security<T>)
        ensures
            final(self)@ == (LedgerState {
                registered: old(self)@.registered.insert(symbol@, details),
                ..old(self)@
            }),
    {
        self.registered_securities.insert(symbol, details);
    }

    /// The details of a registered instrument.
    pub fn security_details(&self, symbol: &SecuritySymbol) -> (r: Option<&Security<T>>)
        ensures
            r is Some <==> self@.registered.contains_key(symbol@),
            r matches Some(d) ==> *d == self@.registered[symbol@],
    {
        self.registered_securities.get(symbol)
    }

    /// Whether an instrument is registered.
    pub fn is_registered(&self, symbol: SecuritySymbol) -> (r: bool)
        ensures
            r == self@.registered.contains_key(symbol@),
    {
        self.registered_securities.contains_key(&symbol)
    }
}

} // verus!
