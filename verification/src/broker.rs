//! The broker: orders, the fill engine that matches them against market data,
//! and the routing between the two and the portfolio.

use vstd::prelude::*;
use crate::DataNumberType;
use crate::broker::orders::FilledOrder;
use crate::broker::orders::OrderError;
use crate::broker::orders::OrderType;
use crate::PortfolioNumberType;
use crate::broker::fill::engine::BasicFillEngine;
use crate::broker::fill::engine::EngineState;
use crate::broker::fill::engine::cycle;
use crate::broker::orders::Order;
use crate::broker::orders::outcome_id;
use crate::broker::slippage::SlippageModel;
use crate::data::DataPoint;
use crate::error::Error;
use crate::portfolio::LedgerState;
use crate::portfolio::Portfolio;
use crate::portfolio::apply;
use crate::table::Table;
use crate::table::entries_insert;
use crate::table::entries_remove;

pub mod error;
pub mod fill;
pub mod orders;
pub mod slippage;

verus! {

/// What the broker and the fill engine tell each other.
#[derive(Debug)]
pub enum BrokerMessage<T: DataNumberType> {
    /// An order to be matched.
    SubmitOrder(OrderType<T>),
    /// What became of an order.
    FilledOrder(Result<FilledOrder<T>, OrderError<T>>),
}

/// The ledger after the outcomes in a queue of messages were applied, first
/// to last.
pub open spec fn ledger_after<T: DataNumberType + PortfolioNumberType>(
    ledger: LedgerState<T>,
    messages: Seq<BrokerMessage<T>>,
) -> LedgerState<T>
    decreases messages.len(),
{
    if messages.len() == 0 {
        ledger
    } else {
        let before = ledger_after(ledger, messages.drop_last());
        match messages.last() {
            BrokerMessage::FilledOrder(outcome) => apply(before, outcome),
            BrokerMessage::SubmitOrder(_) => before,
        }
    }
}

/// The open orders after the orders of the outcomes in a queue of messages
/// were taken away.
pub open spec fn open_without<T: DataNumberType>(
    open: Seq<(String, OrderType<T>)>,
    messages: Seq<BrokerMessage<T>>,
) -> Seq<(String, OrderType<T>)>
    decreases messages.len(),
{
    if messages.len() == 0 {
        open
    } else {
        let before = open_without(open, messages.drop_last());
        match messages.last() {
            BrokerMessage::FilledOrder(outcome) => entries_remove(before, outcome_id(outcome)),
            BrokerMessage::SubmitOrder(_) => before,
        }
    }
}

/// What a broker holds, as values.
#[verifier::reject_recursive_types(T)]
#[verifier::reject_recursive_types(U)]
pub ghost struct BrokerState<
    T: DataNumberType + PortfolioNumberType,
    U: SlippageModel<NumberType = T>,
> {
    /// The fill engine.
    pub engine: EngineState<T, U>,
    /// The orders that were submitted and have no outcome yet, with their
    /// ids, in the order in which they came.
    pub open: Seq<(String, OrderType<T>)>,
}

/// What one cycle of the broker does to itself and to the ledger, given the
/// time: the fill engine runs its cycle against the ledger as it stands, and
/// then every outcome that waits in the engine's queue is applied to the
/// ledger, first to last, and its order leaves the open orders.
pub open spec fn broker_cycle<
    T: DataNumberType + PortfolioNumberType,
    U: SlippageModel<NumberType = T>,
>(
    before: BrokerState<T, U>,
    ledger: LedgerState<T>,
    now: i64,
    after: BrokerState<T, U>,
    ledger_then: LedgerState<T>,
) -> bool {
    exists|mid: EngineState<T, U>|
        {
            &&& #[trigger] cycle(before.engine, ledger, now, mid)
            &&& ledger_then == ledger_after(ledger, mid.outbox)
            &&& after.open == open_without(before.open, mid.outbox)
            &&& after.engine == (EngineState { outbox: Seq::empty(), ..mid })
        }
}

/// The broker of a back test: it hands submitted orders to its fill engine
/// and applies what the engine decides to the portfolio.
#[verifier::reject_recursive_types(T)]
#[verifier::reject_recursive_types(U)]
pub struct BacktestingBroker<
    T: DataNumberType + PortfolioNumberType,
    U: SlippageModel<NumberType = T>,
> {
    fill_engine: BasicFillEngine<T, U>,
    open_orders: Table<String, OrderType<T>>,
}

impl<T: DataNumberType + PortfolioNumberType, U: SlippageModel<NumberType = T>> View for BacktestingBroker<
    T,
    U,
> {
    type V = BrokerState<T, U>;

    closed spec fn view(&self) -> BrokerState<T, U> {
        BrokerState { engine: self.fill_engine@, open: self.open_orders.entries() }
    }
}

impl<T: DataNumberType + PortfolioNumberType, U: SlippageModel<NumberType = T>> BacktestingBroker<
    T,
    U,
> {
    /// A broker around a fill engine, without open orders. The commission is
    /// the engine's own.
    pub fn new(commission: T, fill_engine: BasicFillEngine<T, U>) -> (r: Self)
        ensures
            r@ == (BrokerState { engine: fill_engine@, open: Seq::empty() }),
    {
        BacktestingBroker { fill_engine, open_orders: Table::new() }
    }

    /// Hands a message to the fill engine.
    fn send_message(&mut self, message: BrokerMessage<T>)
        ensures
            final(self)@ == (BrokerState {
                engine: EngineState {
                    inbox: old(self)@.engine.inbox.push(message),
                    ..old(self)@.engine
                },
                ..old(self)@
            }),
    {
        self.fill_engine.add_message(message)
    }

    /// Takes an order: it joins the open orders under its id, and goes to the
    /// fill engine, which takes it up in its next cycle.
    pub fn submit_order(&mut self, order: OrderType<T>)
        ensures
            final(self)@ == (BrokerState {
                engine: EngineState {
                    inbox: old(self)@.engine.inbox.push(BrokerMessage::SubmitOrder(order)),
                    ..old(self)@.engine
                },
                open: entries_insert(old(self)@.open, order.spec_id(), order),
            }),
    {
        self.open_orders.insert(order.get_id(), order.clone());
        self.send_message(BrokerMessage::SubmitOrder(order))
    }

    /// Applies every outcome that waits in the fill engine's queue to the
    /// portfolio, first to last, and takes its order out of the open orders.
    pub fn process_received_messages(&mut self, portfolio: &mut Portfolio<T>)
        ensures
            final(portfolio)@ == ledger_after(old(portfolio)@, old(self)@.engine.outbox),
            final(self)@ == (BrokerState {
                engine: EngineState { outbox: Seq::empty(), ..old(self)@.engine },
                open: open_without(old(self)@.open, old(self)@.engine.outbox),
            }),
    {
        let ghost before = self@;
        let ghost ledger = portfolio@;
        let messages = self.fill_engine.get_filled_orders();
        let mut i: usize = 0;
        while i < messages.len()
            invariant
                i <= messages@.len(),
                messages@ == before.engine.outbox,
                portfolio@ == ledger_after(ledger, messages@.take(i as int)),
                self@ == (BrokerState {
                    engine: EngineState { outbox: Seq::empty(), ..before.engine },
                    open: open_without(before.open, messages@.take(i as int)),
                }),
            decreases messages@.len() - i,
        {
            proof {
                assert(messages@.take(i + 1).drop_last() =~= messages@.take(i as int));
            }
            match &messages[i] {
                BrokerMessage::FilledOrder(filled) => {
                    match filled {
                        Ok(x) => {
                            let id = x.get_id();
                            portfolio.update_portfolio(Ok(x.clone()));
                            self.open_orders.remove(&id);
                        },
                        Err(e) => {
                            let id = e.get_id();
                            portfolio.update_portfolio(Err(e.clone()));
                            self.open_orders.remove(&id);
                        },
                    }
                },
                BrokerMessage::SubmitOrder(_) => {},
            }
            i += 1;
        }
        proof {
            assert(messages@.take(i as int) =~= messages@);
        }
    }

    /// The orders that were submitted and have no outcome yet, by id.
    pub fn get_open_orders(&self) -> (r: &Table<String, OrderType<T>>)
        ensures
            r.entries() == self@.open,
    {
        &self.open_orders
    }

    /// Hands a run of data points, in their order, to the fill engine, which
    /// sees them in its next cycle; the run is left empty.
    pub fn receive_data(&mut self, points: &mut Vec<DataPoint<T>>)
        ensures
            final(self)@ == (BrokerState {
                engine: EngineState {
                    intake: old(self)@.engine.intake + old(points)@,
                    ..old(self)@.engine
                },
                ..old(self)@
            }),
            final(points)@ == Seq::<DataPoint<T>>::empty(),
    {
        self.fill_engine.receive_many(points);
    }

    /// One cycle: the fill engine decides the open orders against the
    /// portfolio as it stands, and the outcomes are applied to the portfolio.
    pub fn next_cycle(&mut self, portfolio: &mut Portfolio<T>, now: i64) -> (r: Result<(), Error>)
        ensures
            r is Ok,
            broker_cycle(old(self)@, old(portfolio)@, now, final(self)@, final(portfolio)@),
    {
        match self.fill_engine.next_cycle(portfolio, now) {
            Ok(_) => {},
            Err(e) => {
                return Err(e);
            },
        }
        let ghost mid = self.fill_engine@;
        self.process_received_messages(portfolio);
        proof {
            assert(cycle(old(self)@.engine, old(portfolio)@, now, mid));
        }
        Ok(())
    }
}

} // verus!
