//! The basic fill engine: it matches each open order against the latest data
//! point of its instrument, never against data from the time of the order or
//! before, and checks the portfolio's funds before it confirms a fill.

use vstd::prelude::*;
use crate::DataNumberType;
use crate::PortfolioNumberType;
use crate::broker::BrokerMessage;
use crate::broker::orders::FilledOrder;
use crate::broker::orders::MarketOrder;
use crate::broker::orders::Order;
use crate::broker::orders::OrderError;
use crate::broker::orders::OrderType;
use crate::broker::orders::Side;
use crate::broker::orders::outcome_order;
use crate::broker::slippage::SlippageModel;
use crate::data::DataPoint;
use crate::error::Error;
use crate::portfolio::LedgerState;
use crate::portfolio::Portfolio;
use crate::security::SecuritySymbol;
use crate::security::SymbolId;
use crate::table::Table;
use crate::table::TableKey;
use crate::table::distinct_keys;
use crate::table::entries_insert;
use crate::table::has_key;
use crate::table::position;

verus! {

/// What the engine decides about an order in one cycle.
pub ghost enum Verdict<T: DataNumberType> {
    /// No data point later than the order: the order waits.
    Pending,
    /// The order trades.
    Filled(FilledOrder<T>),
    /// The order is turned down, for the given reason.
    Rejected(Seq<char>),
}

/// Why the portfolio cannot carry an order at a price, if it cannot.
///
/// A buy needs a balance, in the currency of the registered instrument, of at
/// least volume times price; it is short of funds also where the instrument
/// is not registered, the currency has no balance, or the cost has no value
/// in the number type. A sell needs a holding of at least the order's volume.
pub open spec fn funds_shortfall<T: DataNumberType + PortfolioNumberType>(
    ledger: LedgerState<T>,
    order: MarketOrder<T>,
    price: T,
) -> Option<Seq<char>> {
    let symbol = order.symbol@;
    match order.side {
        Side::Buy => {
            if !ledger.registered.contains_key(symbol) {
                Some("Insufficient Funds"@)
            } else if !ledger.cash.contains_key(ledger.registered[symbol].spec_currency()) {
                Some("Insufficient Funds"@)
            } else {
                match order.volume.mul_spec(price) {
                    Some(cost) => if ledger.cash[ledger.registered[symbol].spec_currency()].lt_spec(
                        cost,
                    ) {
                        Some("Insufficient Funds"@)
                    } else {
                        None
                    },
                    None => Some("Insufficient Funds"@),
                }
            }
        },
        Side::Sell => {
            if !ledger.holdings.contains_key(symbol) {
                Some("No Holdings"@)
            } else if ledger.holdings[symbol].spec_volume().lt_spec(order.volume) {
                Some("Insufficient Holdings"@)
            } else {
                None
            }
        },
    }
}

/// What a decision about orders rests on: the slippage model, the commission,
/// the latest data point of each instrument, the ledger and the time.
#[verifier::reject_recursive_types(T)]
#[verifier::reject_recursive_types(U)]
pub ghost struct MatchContext<
    T: DataNumberType + PortfolioNumberType,
    U: SlippageModel<NumberType = T>,
> {
    pub model: U,
    pub commission: T,
    pub lines: Map<SymbolId, DataPoint<T>>,
    pub ledger: LedgerState<T>,
    pub now: i64,
}

/// The decision about a market order.
///
/// The order waits until the latest data point of its instrument is later
/// than the order itself. Then the slippage model prices it; it is turned
/// down where there is no price or the funds fall short, and filled in full
/// otherwise, at the flat commission.
pub open spec fn market_order_verdict<
    T: DataNumberType + PortfolioNumberType,
    U: SlippageModel<NumberType = T>,
>(ctx: MatchContext<T, U>, order: MarketOrder<T>) -> Verdict<T> {
    if !ctx.lines.contains_key(order.symbol@) {
        Verdict::Pending
    } else if ctx.lines[order.symbol@].time <= order.timestamp {
        Verdict::Pending
    } else {
        match ctx.model.price_spec(ctx.lines[order.symbol@], order.side) {
            None => Verdict::Rejected("Price Unavailable"@),
            Some(price) => match funds_shortfall(ctx.ledger, order, price) {
                Some(reason) => Verdict::Rejected(reason),
                None => Verdict::Filled(
                    FilledOrder {
                        order: OrderType::MarketOrder(order),
                        timestamp: ctx.now,
                        volume: order.volume,
                        price,
                        commission: ctx.commission,
                        partial: false,
                    },
                ),
            },
        }
    }
}

/// The decision about an order of any kind.
pub open spec fn order_verdict<
    T: DataNumberType + PortfolioNumberType,
    U: SlippageModel<NumberType = T>,
>(ctx: MatchContext<T, U>, order: OrderType<T>) -> Verdict<T> {
    match order {
        OrderType::MarketOrder(x) => market_order_verdict(ctx, x),
    }
}

/// Whether an outcome is what a verdict says of an order: the fill itself, or
/// a rejection of that order, at that time, with the verdict's reason.
pub open spec fn records<T: DataNumberType>(
    outcome: Result<FilledOrder<T>, OrderError<T>>,
    order: OrderType<T>,
    verdict: Verdict<T>,
    now: i64,
) -> bool {
    match verdict {
        Verdict::Pending => false,
        Verdict::Filled(filled) => outcome == Ok::<FilledOrder<T>, OrderError<T>>(filled),
        Verdict::Rejected(reason) => outcome matches Err(e) && e.order == order && e.timestamp
            == now && e.error@ == reason,
    }
}

/// Whether what the engine answers for an order is what the verdict says:
/// nothing for an order that waits, else an outcome that records the verdict.
pub open spec fn answers<T: DataNumberType>(
    answer: Option<Result<FilledOrder<T>, OrderError<T>>>,
    order: OrderType<T>,
    verdict: Verdict<T>,
    now: i64,
) -> bool {
    match answer {
        None => verdict is Pending,
        Some(outcome) => records(outcome, order, verdict, now),
    }
}

/// No look-ahead: an order leaves the pending state only on a data point that
/// is later than the order, and a fill carries the order, its full volume,
/// the flat commission and no partial flag.
pub proof fn lemma_no_look_ahead<
    T: DataNumberType + PortfolioNumberType,
    U: SlippageModel<NumberType = T>,
>(ctx: MatchContext<T, U>, order: MarketOrder<T>)
    ensures
        !(market_order_verdict(ctx, order) is Pending) ==> ctx.lines.contains_key(order.symbol@)
            && ctx.lines[order.symbol@].time > order.timestamp,
        market_order_verdict(ctx, order) matches Verdict::Filled(filled) ==> filled.order
            == OrderType::MarketOrder(order) && filled.volume == order.volume && filled.commission
            == ctx.commission && !filled.partial && filled.timestamp == ctx.now
            && ctx.model.price_spec(ctx.lines[order.symbol@], order.side) == Some(filled.price)
            && funds_shortfall(ctx.ledger, order, filled.price) is None,
{
}

/// The latest data point of each instrument after a queue of points was
/// seen, first to last.
pub open spec fn lines_after<T: DataNumberType>(
    lines: Map<SymbolId, DataPoint<T>>,
    points: Seq<DataPoint<T>>,
) -> Map<SymbolId, DataPoint<T>>
    decreases points.len(),
{
    if points.len() == 0 {
        lines
    } else {
        lines_after(lines, points.drop_last()).insert(points.last().symbol@, points.last())
    }
}

/// The open orders after a queue of messages was read, first to last: every
/// submitted order is stored under its id.
pub open spec fn open_after<T: DataNumberType>(
    open: Seq<(String, OrderType<T>)>,
    messages: Seq<BrokerMessage<T>>,
) -> Seq<(String, OrderType<T>)>
    decreases messages.len(),
{
    if messages.len() == 0 {
        open
    } else {
        let before = open_after(open, messages.drop_last());
        match messages.last() {
            BrokerMessage::SubmitOrder(x) => entries_insert(before, x.spec_id(), x),
            BrokerMessage::FilledOrder(_) => before,
        }
    }
}

/// The orders, among the first `n` open ones, that still wait after a cycle,
/// in their order.
pub open spec fn pending_among<
    T: DataNumberType + PortfolioNumberType,
    U: SlippageModel<NumberType = T>,
>(ctx: MatchContext<T, U>, open: Seq<(String, OrderType<T>)>, n: int) -> Seq<
    (String, OrderType<T>),
>
    decreases n,
{
    if n <= 0 {
        Seq::empty()
    } else {
        let before = pending_among(ctx, open, n - 1);
        if order_verdict(ctx, open[n - 1].1) is Pending {
            before.push(open[n - 1])
        } else {
            before
        }
    }
}

/// The orders, among the first `n` open ones, that a cycle decides, in their
/// order.
pub open spec fn decided_among<
    T: DataNumberType + PortfolioNumberType,
    U: SlippageModel<NumberType = T>,
>(ctx: MatchContext<T, U>, open: Seq<(String, OrderType<T>)>, n: int) -> Seq<OrderType<T>>
    decreases n,
{
    if n <= 0 {
        Seq::empty()
    } else {
        let before = decided_among(ctx, open, n - 1);
        if order_verdict(ctx, open[n - 1].1) is Pending {
            before
        } else {
            before.push(open[n - 1].1)
        }
    }
}

/// Whether a queue of outgoing messages is an earlier queue followed by one
/// message for each decided order, in their order, each with an outcome that
/// records the verdict about its order.
pub open spec fn reports<
    T: DataNumberType + PortfolioNumberType,
    U: SlippageModel<NumberType = T>,
>(
    ctx: MatchContext<T, U>,
    outbox: Seq<BrokerMessage<T>>,
    earlier: Seq<BrokerMessage<T>>,
    decided: Seq<OrderType<T>>,
) -> bool {
    &&& outbox.len() == earlier.len() + decided.len()
    &&& forall|j: int| 0 <= j < earlier.len() ==> #[trigger] outbox[j] == earlier[j]
    &&& forall|j: int|
        earlier.len() <= j < outbox.len() ==> (#[trigger] outbox[j] matches BrokerMessage::FilledOrder(
            outcome,
        ) && records(
            outcome,
            decided[j - earlier.len()],
            order_verdict(ctx, decided[j - earlier.len()]),
            ctx.now,
        ))
}

/// Every order that still waits is one of the open orders it was taken from.
pub proof fn lemma_pending_is_open<
    T: DataNumberType + PortfolioNumberType,
    U: SlippageModel<NumberType = T>,
>(ctx: MatchContext<T, U>, open: Seq<(String, OrderType<T>)>, n: int)
    requires
        0 <= n <= open.len(),
    ensures
        forall|a: int|
            0 <= a < pending_among(ctx, open, n).len() ==> exists|j: int|
                0 <= j < n && open[j] == #[trigger] pending_among(ctx, open, n)[a],
    decreases n,
{
    if n > 0 {
        lemma_pending_is_open(ctx, open, n - 1);
        let before = pending_among(ctx, open, n - 1);
        let now = pending_among(ctx, open, n);
        assert forall|a: int| 0 <= a < now.len() implies exists|j: int|
            0 <= j < n && open[j] == #[trigger] now[a] by {
        }
    }
}

/// Every order that a cycle decides is one of the open orders, and the
/// verdict about it is not that it waits.
pub proof fn lemma_decided_is_open<
    T: DataNumberType + PortfolioNumberType,
    U: SlippageModel<NumberType = T>,
>(ctx: MatchContext<T, U>, open: Seq<(String, OrderType<T>)>, n: int)
    requires
        0 <= n <= open.len(),
    ensures
        forall|k: int|
            0 <= k < decided_among(ctx, open, n).len() ==> !(order_verdict(
                ctx,
                #[trigger] decided_among(ctx, open, n)[k],
            ) is Pending) && exists|j: int|
                0 <= j < n && open[j].1 == decided_among(ctx, open, n)[k],
    decreases n,
{
    if n > 0 {
        lemma_decided_is_open(ctx, open, n - 1);
        let before = decided_among(ctx, open, n - 1);
        let now = decided_among(ctx, open, n);
        assert forall|k: int| 0 <= k < now.len() implies !(order_verdict(ctx, #[trigger] now[k])
            is Pending) && exists|j: int| 0 <= j < n && open[j].1 == now[k] by {
        }
    }
}

/// What a fill engine holds, as values.
#[verifier::reject_recursive_types(T)]
#[verifier::reject_recursive_types(U)]
pub ghost struct EngineState<
    T: DataNumberType + PortfolioNumberType,
    U: SlippageModel<NumberType = T>,
> {
    /// Data points that came in and were not looked at yet, first to last.
    pub intake: Seq<DataPoint<T>>,
    /// The latest data point seen of each instrument.
    pub lines: Map<SymbolId, DataPoint<T>>,
    /// The open orders with their ids, in the order in which they came.
    pub open: Seq<(String, OrderType<T>)>,
    /// Messages for the broker, first to last.
    pub outbox: Seq<BrokerMessage<T>>,
    /// Messages from the broker that were not read yet, first to last.
    pub inbox: Seq<BrokerMessage<T>>,
    pub model: U,
    pub commission: T,
}

/// What one cycle of the engine does to its state, given the ledger and the
/// time: it sees the data points that came in, takes up the submitted orders,
/// decides every open order, keeps those that wait, and reports an outcome
/// for each of the others.
pub open spec fn cycle<T: DataNumberType + PortfolioNumberType, U: SlippageModel<NumberType = T>>(
    before: EngineState<T, U>,
    ledger: LedgerState<T>,
    now: i64,
    after: EngineState<T, U>,
) -> bool {
    let lines = lines_after(before.lines, before.intake);
    let open = open_after(before.open, before.inbox);
    let ctx = MatchContext { model: before.model, commission: before.commission, lines, ledger, now };
    &&& after.intake == Seq::<DataPoint<T>>::empty()
    &&& after.lines == lines
    &&& after.open == pending_among(ctx, open, open.len() as int)
    &&& reports(ctx, after.outbox, before.outbox, decided_among(ctx, open, open.len() as int))
    &&& after.inbox == Seq::<BrokerMessage<T>>::empty()
    &&& after.model == before.model
    &&& after.commission == before.commission
}

/// No look-ahead, for a whole cycle: every outcome that a cycle reports is
/// about an order whose instrument has a latest data point that is later
/// than the order.
pub proof fn lemma_cycle_no_look_ahead<
    T: DataNumberType + PortfolioNumberType,
    U: SlippageModel<NumberType = T>,
>(before: EngineState<T, U>, ledger: LedgerState<T>, now: i64, after: EngineState<T, U>)
    requires
        cycle(before, ledger, now, after),
    ensures
        forall|j: int|
            before.outbox.len() <= j < after.outbox.len() ==> (
            #[trigger] after.outbox[j] matches BrokerMessage::FilledOrder(outcome)
                && after.lines.contains_key(outcome_order(outcome).spec_symbol()@)
                && after.lines[outcome_order(outcome).spec_symbol()@].time > outcome_order(
                outcome,
            ).spec_timestamp()),
{
    let lines = lines_after(before.lines, before.intake);
    let open = open_after(before.open, before.inbox);
    let ctx = MatchContext { model: before.model, commission: before.commission, lines, ledger, now };
    let decided = decided_among(ctx, open, open.len() as int);
    lemma_decided_is_open(ctx, open, open.len() as int);
    assert forall|j: int| before.outbox.len() <= j < after.outbox.len() implies (
    #[trigger] after.outbox[j] matches BrokerMessage::FilledOrder(outcome)
        && after.lines.contains_key(outcome_order(outcome).spec_symbol()@)
        && after.lines[outcome_order(outcome).spec_symbol()@].time > outcome_order(
        outcome,
    ).spec_timestamp()) by {
        let k = j - before.outbox.len();
        let order = decided[k];
        match order {
            OrderType::MarketOrder(x) => {
                lemma_no_look_ahead(ctx, x);
            },
        }
    }
}

/// The basic fill engine.
#[verifier::reject_recursive_types(T)]
#[verifier::reject_recursive_types(U)]
pub struct BasicFillEngine<
    T: DataNumberType + PortfolioNumberType,
    U: SlippageModel<NumberType = T>,
> {
    intake: Vec<DataPoint<T>>,
    data_lines: Table<SecuritySymbol, DataPoint<T>>,
    open_orders: Table<String, OrderType<T>>,
    filled_orders: Vec<BrokerMessage<T>>,
    received_messages: Vec<BrokerMessage<T>>,
    slippage: U,
    commission: T,
}

impl<T: DataNumberType + PortfolioNumberType, U: SlippageModel<NumberType = T>> View for BasicFillEngine<
    T,
    U,
> {
    type V = EngineState<T, U>;

    closed spec fn view(&self) -> EngineState<T, U> {
        EngineState {
            intake: self.intake@,
            lines: self.data_lines@,
            open: self.open_orders.entries(),
            outbox: self.filled_orders@,
            inbox: self.received_messages@,
            model: self.slippage,
            commission: self.commission,
        }
    }
}

impl<T: DataNumberType + PortfolioNumberType, U: SlippageModel<NumberType = T>> BasicFillEngine<
    T,
    U,
> {
    /// What the engine's decisions rest on, given the ledger and the time.
    pub open spec fn context(&self, ledger: LedgerState<T>, now: i64) -> MatchContext<T, U> {
        MatchContext {
            model: self@.model,
            commission: self@.commission,
            lines: self@.lines,
            ledger,
            now,
        }
    }

    /// An engine with nothing seen and no orders.
    pub fn new(commission: T, slippage: U) -> (r: Self)
        ensures
            r@ == (EngineState {
                intake: Seq::empty(),
                lines: Map::empty(),
                open: Seq::empty(),
                outbox: Seq::empty(),
                inbox: Seq::empty(),
                model: slippage,
                commission,
            }),
    {
        BasicFillEngine {
            intake: Vec::new(),
            data_lines: Table::new(),
            open_orders: Table::new(),
            filled_orders: Vec::new(),
            received_messages: Vec::new(),
            slippage,
            commission,
        }
    }

    /// Whether the portfolio can carry the order at the price; else the
    /// rejection, with the reason and the time `now`.
    pub fn check_funds(
        &self,
        order: MarketOrder<T>,
        price: T,
        portfolio: &Portfolio<T>,
        now: i64,
    ) -> (r: Result<(), OrderError<T>>)
        ensures
            match funds_shortfall(portfolio@, order, price) {
                None => r is Ok,
                Some(reason) => r matches Err(e) && e.order == OrderType::MarketOrder(order)
                    && e.timestamp == now && e.error@ == reason,
            },
    {
        match order.side {
            Side::Buy => {
                let currency = match portfolio.security_details(&order.symbol) {
                    Some(details) => Some(details.get_currency()),
                    None => None,
                };
                let cash: Option<T> = match currency {
                    Some(currency) => match portfolio.get_cash(currency) {
                        Some(cash) => Some(*cash),
                        None => None,
                    },
                    None => None,
                };
                let enough = match cash {
                    Some(cash) => match order.volume.checked_mul(price) {
                        Some(cost) => !cash.less_than(cost),
                        None => false,
                    },
                    None => false,
                };
                if !enough {
                    return Err(
                        OrderError::new(OrderType::MarketOrder(order), now, "Insufficient Funds"),
                    );
                }
            },
            Side::Sell => {
                match portfolio.get_holding(order.symbol.clone()) {
                    Some(amnt) => {
                        if amnt.get_volume().less_than(order.volume) {
                            return Err(
                                OrderError::new(
                                    OrderType::MarketOrder(order),
                                    now,
                                    "Insufficient Holdings",
                                ),
                            );
                        }
                    },
                    None => {
                        return Err(
                            OrderError::new(OrderType::MarketOrder(order), now, "No Holdings"),
                        );
                    },
                }
            },
        }
        Ok(())
    }

    /// Decides a market order against the latest data point of its
    /// instrument: nothing while the order waits, else the fill or the
    /// rejection, stamped with the time `now`.
    pub fn fill_market_order(&self, order: MarketOrder<T>, portfolio: &Portfolio<T>, now: i64) -> (r:
        Option<Result<FilledOrder<T>, OrderError<T>>>)
        ensures
            answers(
                r,
                OrderType::MarketOrder(order),
                market_order_verdict(self.context(portfolio@, now), order),
                now,
            ),
    {
        let last_data = self.data_lines.get(&order.symbol);
        if let Some(x) = last_data {
            if x.get_time() > order.timestamp {
                let price = match self.slippage.get_slippage_approximation(x, &order) {
                    Some(price) => price,
                    None => {
                        return Some(
                            Err(
                                OrderError::new(
                                    OrderType::MarketOrder(order),
                                    now,
                                    "Price Unavailable",
                                ),
                            ),
                        );
                    },
                };
                let volume = order.volume;
                let commission = self.get_commission(&order);
                return match self.check_funds(order.clone(), price, portfolio, now) {
                    Err(e) => Some(Err(e)),
                    Ok(_) => Some(
                        Ok(
                            FilledOrder::new(
                                OrderType::MarketOrder(order),
                                now,
                                volume,
                                price,
                                commission,
                                false,
                            ),
                        ),
                    ),
                };
            }
        }
        None
    }

    /// Decides an order of any kind.
    pub fn check_fill(&self, order: OrderType<T>, portfolio: &Portfolio<T>, now: i64) -> (r: Option<
        Result<FilledOrder<T>, OrderError<T>>,
    >)
        ensures
            answers(r, order, order_verdict(self.context(portfolio@, now), order), now),
    {
        match order {
            OrderType::MarketOrder(x) => self.fill_market_order(x, portfolio, now),
        }
    }

    /// The commission for an order: the flat rate, whatever the order.
    pub fn get_commission<O: Order>(&self, order: &O) -> (r: T)
        ensures
            r == self@.commission,
    {
        self.commission
    }

    /// Takes a data point as the latest of its instrument.
    pub fn add_datapoint(&mut self, datapoint: DataPoint<T>)
        ensures
            final(self)@ == (EngineState {
                lines: old(self)@.lines.insert(datapoint.symbol@, datapoint),
                ..old(self)@
            }),
    {
        self.data_lines.insert(datapoint.get_symbol(), datapoint);
    }

    /// Puts a data point on the queue of points to be seen in the next cycle.
    pub fn receive_data(&mut self, datapoint: DataPoint<T>)
        ensures
            final(self)@ == (EngineState {
                intake: old(self)@.intake.push(datapoint),
                ..old(self)@
            }),
    {
        self.intake.push(datapoint);
    }

    /// Puts a run of data points, in their order, on the queue of points to be
    /// seen in the next cycle, and leaves the run empty.
    pub fn receive_many(&mut self, points: &mut Vec<DataPoint<T>>)
        ensures
            final(self)@ == (EngineState {
                intake: old(self)@.intake + old(points)@,
                ..old(self)@
            }),
            final(points)@ == Seq::<DataPoint<T>>::empty(),
    {
        self.intake.append(points);
    }

    /// Puts a message from the broker on the queue of messages to be read in
    /// the next cycle.
    pub fn add_message(&mut self, message: BrokerMessage<T>)
        ensures
            final(self)@ == (EngineState {
                inbox: old(self)@.inbox.push(message),
                ..old(self)@
            }),
    {
        self.received_messages.push(message);
    }

    /// Hands over the messages for the broker and empties their queue.
    pub fn get_filled_orders(&mut self) -> (r: Vec<BrokerMessage<T>>)
        ensures
            r@ == old(self)@.outbox,
            final(self)@ == (EngineState { outbox: Seq::empty(), ..old(self)@ }),
    {
        let mut out: Vec<BrokerMessage<T>> = Vec::new();
        core::mem::swap(&mut self.filled_orders, &mut out);
        out
    }

    /// Sees the data points that came in, in their order.
    fn see_intake(&mut self)
        ensures
            final(self)@ == (EngineState {
                intake: Seq::empty(),
                lines: lines_after(old(self)@.lines, old(self)@.intake),
                ..old(self)@
            }),
    {
        let mut points: Vec<DataPoint<T>> = Vec::new();
        core::mem::swap(&mut self.intake, &mut points);
        let ghost before = old(self)@;
        let mut i: usize = 0;
        while i < points.len()
            invariant
                i <= points@.len(),
                points@ == before.intake,
                self@ == (EngineState {
                    intake: Seq::empty(),
                    lines: lines_after(before.lines, points@.take(i as int)),
                    ..before
                }),
            decreases points@.len() - i,
        {
            let point = points[i].clone();
            proof {
                assert(points@.take(i + 1).drop_last() =~= points@.take(i as int));
            }
            self.add_datapoint(point);
            i += 1;
        }
        proof {
            assert(points@.take(i as int) =~= points@);
        }
    }

    /// Takes up the orders that the broker submitted, in their order.
    fn read_inbox(&mut self)
        ensures
            final(self)@ == (EngineState {
                inbox: Seq::empty(),
                open: open_after(old(self)@.open, old(self)@.inbox),
                ..old(self)@
            }),
    {
        let mut messages: Vec<BrokerMessage<T>> = Vec::new();
        core::mem::swap(&mut self.received_messages, &mut messages);
        let ghost before = old(self)@;
        let mut i: usize = 0;
        while i < messages.len()
            invariant
                i <= messages@.len(),
                messages@ == before.inbox,
                self@ == (EngineState {
                    inbox: Seq::empty(),
                    open: open_after(before.open, messages@.take(i as int)),
                    ..before
                }),
            decreases messages@.len() - i,
        {
            proof {
                assert(messages@.take(i + 1).drop_last() =~= messages@.take(i as int));
            }
            match &messages[i] {
                BrokerMessage::SubmitOrder(x) => {
                    self.open_orders.insert(x.get_id(), x.clone());
                },
                BrokerMessage::FilledOrder(_) => {},
            }
            i += 1;
        }
        proof {
            assert(messages@.take(i as int) =~= messages@);
        }
    }

    /// Decides every open order; keeps those that wait and reports an outcome
    /// for each of the others.
    fn match_orders(&mut self, portfolio: &Portfolio<T>, now: i64)
        ensures
            final(self)@.intake == old(self)@.intake,
            final(self)@.lines == old(self)@.lines,
            final(self)@.inbox == old(self)@.inbox,
            final(self)@.model == old(self)@.model,
            final(self)@.commission == old(self)@.commission,
            final(self)@.open == pending_among(
                old(self).context(portfolio@, now),
                old(self)@.open,
                old(self)@.open.len() as int,
            ),
            reports(
                old(self).context(portfolio@, now),
                final(self)@.outbox,
                old(self)@.outbox,
                decided_among(
                    old(self).context(portfolio@, now),
                    old(self)@.open,
                    old(self)@.open.len() as int,
                ),
            ),
    {
        let ghost before = old(self)@;
        let ghost ctx = old(self).context(portfolio@, now);
        let n = self.open_orders.len();
        let mut kept: Table<String, OrderType<T>> = Table::new();
        let mut i: usize = 0;
        while i < n
            invariant
                i <= n,
                n == before.open.len(),
                distinct_keys(before.open),
                ctx == self.context(portfolio@, now),
                self@ == (EngineState { outbox: self@.outbox, ..before }),
                kept.entries() == pending_among(ctx, before.open, i as int),
                reports(ctx, self@.outbox, before.outbox, decided_among(ctx, before.open, i as int)),
            decreases n - i,
        {
            let order = self.open_orders.value_at(i).clone();
            let ghost outbox = self@.outbox;
            let ghost decided = decided_among(ctx, before.open, i as int);
            match self.check_fill(order, portfolio, now) {
                Some(outcome) => {
                    self.filled_orders.push(BrokerMessage::FilledOrder(outcome));
                    proof {
                        let after = decided_among(ctx, before.open, i + 1);
                        assert forall|j: int|
                            before.outbox.len() <= j < self@.outbox.len() implies (
                        #[trigger] self@.outbox[j] matches BrokerMessage::FilledOrder(o) && records(
                            o,
                            after[j - before.outbox.len()],
                            order_verdict(ctx, after[j - before.outbox.len()]),
                            ctx.now,
                        )) by {
                            if j < outbox.len() {
                                assert(after[j - before.outbox.len()] == decided[j
                                    - before.outbox.len()]);
                            }
                        }
                        assert forall|j: int| 0 <= j < before.outbox.len() implies (
                        #[trigger] self@.outbox[j]) == before.outbox[j] by {
                        }
                    }
                },
                None => {
                    let key = self.open_orders.key_at(i).clone();
                    proof {
                        lemma_pending_is_open(ctx, before.open, i as int);
                        if has_key(kept.entries(), key.id()) {
                            let p = position(kept.entries(), key.id());
                            let j = choose|j: int|
                                0 <= j < i && before.open[j] == kept.entries()[p];
                            assert(before.open[j].0.id() != before.open[i as int].0.id());
                        }
                    }
                    let order = self.open_orders.value_at(i).clone();
                    kept.insert(key, order);
                },
            }
            i += 1;
        }
        self.open_orders = kept;
    }

    /// One cycle: sees the data points that came in, takes up the submitted
    /// orders, and decides every open order against the ledger as it stands.
    /// An order that is decided leaves the open orders for good; its outcome
    /// waits in the queue for the broker.
    pub fn next_cycle(&mut self, portfolio: &Portfolio<T>, now: i64) -> (r: Result<(), Error>)
        ensures
            r is Ok,
            cycle(old(self)@, portfolio@, now, final(self)@),
    {
        self.see_intake();
        self.read_inbox();
        self.match_orders(portfolio, now);
        Ok(())
    }

    /// The open orders, by id.
    pub fn get_open_orders(&self) -> (r: &Table<String, OrderType<T>>)
        ensures
            r.entries() == self@.open,
    {
        &self.open_orders
    }
}

} // verus!
