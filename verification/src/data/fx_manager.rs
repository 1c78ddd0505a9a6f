//! The exchange rate cache: direct rates as they were observed, and rates
//! derived from two adjacent ones.

use vstd::prelude::*;
use crate::DataNumberType;
use crate::error::Error;
use crate::security::Currency;
use crate::table::Table;
use crate::table::TableKey;

verus! {

impl TableKey for (Currency, Currency) {
    type Id = (Currency, Currency);

    open spec fn id(&self) -> (Currency, Currency) {
        *self
    }

    fn same_key(&self, other: &Self) -> (r: bool) {
        self.0 == other.0 && self.1 == other.1
    }
}

/// One unit of `source` is worth `rate` units of `target`.
#[derive(Debug, Clone, Copy, PartialEq)]
pub struct ExchangeRate<T: DataNumberType> {
    pub source: Currency,
    pub target: Currency,
    pub rate: T,
}

/// Whether two rates share a currency, so that one rate can be derived from
/// them.
pub open spec fn chainable<T: DataNumberType>(r1: ExchangeRate<T>, r2: ExchangeRate<T>) -> bool {
    r1.source == r2.source || r1.source == r2.target || r1.target == r2.source || r1.target
        == r2.target
}

/// A rate between two currencies, or nothing where the number has no value.
pub open spec fn rate_between<T: DataNumberType>(
    source: Currency,
    target: Currency,
    rate: Option<T>,
) -> Option<ExchangeRate<T>> {
    match rate {
        Some(rate) => Some(ExchangeRate { source, target, rate }),
        None => None,
    }
}

/// `1 / (a * b)` in the number type's arithmetic.
pub open spec fn inverse_of_product<T: DataNumberType>(a: T, b: T) -> Option<T> {
    match a.mul_spec(b) {
        Some(p) => T::from_i8_spec(1).div_spec(p),
        None => None,
    }
}

/// The rate derived from two rates that share a currency. Where they share
/// more than one, the first rule that applies decides:
/// same source, then `r1`'s source is `r2`'s target, then `r1`'s target is
/// `r2`'s source, then same target.
pub open spec fn chain_spec<T: DataNumberType>(r1: ExchangeRate<T>, r2: ExchangeRate<T>) -> Option<
    ExchangeRate<T>,
> {
    if r1.source == r2.source {
        rate_between(r1.target, r2.target, r2.rate.div_spec(r1.rate))
    } else if r1.source == r2.target {
        rate_between(r1.target, r2.source, inverse_of_product(r1.rate, r2.rate))
    } else if r1.target == r2.source {
        rate_between(r1.source, r2.target, r1.rate.mul_spec(r2.rate))
    } else if r1.target == r2.target {
        rate_between(r1.source, r2.source, r1.rate.div_spec(r2.rate))
    } else {
        None
    }
}

impl<T: DataNumberType> ExchangeRate<T> {
    pub fn new(source: Currency, target: Currency, rate: T) -> (r: Self)
        ensures
            r == (ExchangeRate { source, target, rate }),
    {
        ExchangeRate { source, target, rate }
    }

    /// The worth of `cash` units of the source currency in the target
    /// currency: `rate * cash`, or `None` where that has no value.
    pub fn exchange(&self, cash: T) -> (r: Option<T>)
        ensures
            r == self.rate.mul_spec(cash),
    {
        self.rate.checked_mul(cash)
    }

    /// Derives one rate from two that share a currency.
    ///
    /// Fails with `FXConversionError` where the two share no currency
    /// ("exchange rate not chainable") and where the derived rate has no value
    /// in the number type ("exchange rate not representable").
    pub fn chain(r1: &ExchangeRate<T>, r2: &ExchangeRate<T>) -> (r: Result<ExchangeRate<T>, Error>)
        ensures
            r is Ok <==> chain_spec(*r1, *r2) is Some,
            r matches Ok(x) ==> chain_spec(*r1, *r2) == Some(x),
            r matches Err(e) ==> chain_spec(*r1, *r2) is None && (e matches Error::FXConversionError(
                m,
            ) && (m@ == if chainable(*r1, *r2) {
                "exchange rate not representable"@
            } else {
                "exchange rate not chainable"@
            })),
    {
        let rate: Option<ExchangeRate<T>> = if r1.source == r2.source {
            Self::between(r1.target, r2.target, r2.rate.checked_div(r1.rate))
        } else if r1.source == r2.target {
            let inverse = match r1.rate.checked_mul(r2.rate) {
                Some(p) => T::from_i8(1).checked_div(p),
                None => None,
            };
            Self::between(r1.target, r2.source, inverse)
        } else if r1.target == r2.source {
            Self::between(r1.source, r2.target, r1.rate.checked_mul(r2.rate))
        } else if r1.target == r2.target {
            Self::between(r1.source, r2.source, r1.rate.checked_div(r2.rate))
        } else {
            return Err(Error::FXConversionError(String::from_str("exchange rate not chainable")));
        };
        match rate {
            Some(x) => Ok(x),
            None => Err(
                Error::FXConversionError(String::from_str("exchange rate not representable")),
            ),
        }
    }

    fn between(source: Currency, target: Currency, rate: Option<T>) -> (r: Option<Self>)
        ensures
            r == rate_between(source, target, rate),
    {
        match rate {
            Some(rate) => Some(ExchangeRate { source, target, rate }),
            None => None,
        }
    }
}

/// The currency at the other end of a stored pair that touches `source`.
pub open spec fn other_end(pair: (Currency, Currency), source: Currency) -> Option<Currency> {
    if pair.0 == source {
        Some(pair.1)
    } else if pair.1 == source {
        Some(pair.0)
    } else {
        None
    }
}

/// The stored rate between an intermediary and the target: the one from the
/// intermediary where it is stored, else the one from the target.
pub open spec fn second_leg<T: DataNumberType>(
    rates: Map<(Currency, Currency), T>,
    via: Currency,
    target: Currency,
) -> Option<ExchangeRate<T>> {
    if rates.contains_key((via, target)) {
        Some(ExchangeRate { source: via, target, rate: rates[(via, target)] })
    } else if rates.contains_key((target, via)) {
        Some(ExchangeRate { source: target, target: via, rate: rates[(target, via)] })
    } else {
        None
    }
}

/// The two stored rates that lead from `source` to `target` through the other
/// end of one stored entry, where that entry touches `source`, its other end
/// is a third currency, and a rate between that currency and `target` is
/// stored.
pub open spec fn legs_through<T: DataNumberType>(
    rates: Map<(Currency, Currency), T>,
    entry: ((Currency, Currency), T),
    source: Currency,
    target: Currency,
) -> Option<(ExchangeRate<T>, ExchangeRate<T>)> {
    match other_end(entry.0, source) {
        Some(via) => if via != source && via != target {
            match second_leg(rates, via, target) {
                Some(tail) => Some(
                    (ExchangeRate { source: entry.0.0, target: entry.0.1, rate: entry.1 }, tail),
                ),
                None => None,
            }
        } else {
            None
        },
        None => None,
    }
}

/// The rate from `source` to `target` derived through the first stored entry,
/// from place `from` on, that gives two legs; nothing where no entry does, or
/// where the derived rate has no value.
pub open spec fn triangulate<T: DataNumberType>(
    entries: Seq<((Currency, Currency), T)>,
    source: Currency,
    target: Currency,
    from: int,
) -> Option<ExchangeRate<T>>
    decreases entries.len() - from,
{
    if from < 0 || from >= entries.len() {
        None
    } else {
        match legs_through(crate::table::entries_map(entries), entries[from], source, target) {
            Some(legs) => chain_spec(legs.0, legs.1),
            None => triangulate(entries, source, target, from + 1),
        }
    }
}

/// The rate that a cache with the given entries answers for a pair: the
/// identity for a currency with itself, else the stored rate, else a rate
/// derived through one intermediary.
pub open spec fn lookup_spec<T: DataNumberType>(
    entries: Seq<((Currency, Currency), T)>,
    source: Currency,
    target: Currency,
) -> Option<ExchangeRate<T>> {
    let rates = crate::table::entries_map(entries);
    if source == target {
        Some(ExchangeRate { source, target, rate: T::from_i8_spec(1) })
    } else if rates.contains_key((source, target)) {
        Some(ExchangeRate { source, target, rate: rates[(source, target)] })
    } else {
        triangulate(entries, source, target, 0)
    }
}

/// A derived rate leads from the currency asked for to the currency asked for.
pub proof fn lemma_triangulate_ends<T: DataNumberType>(
    entries: Seq<((Currency, Currency), T)>,
    source: Currency,
    target: Currency,
    from: int,
)
    requires
        source != target,
    ensures
        triangulate(entries, source, target, from) matches Some(r) ==> r.source == source
            && r.target == target,
    decreases entries.len() - from,
{
    if 0 <= from < entries.len() {
        match legs_through(crate::table::entries_map(entries), entries[from], source, target) {
            Some(legs) => {},
            None => {
                lemma_triangulate_ends(entries, source, target, from + 1);
            },
        }
    }
}

/// Triangulation over two stored rates. For three different currencies and a
/// cache that holds two rates, each of them in either direction, between the
/// source and a third currency and between the third currency and the
/// target, the rate asked for is the one that the two chain to:
/// their product where they lead head to tail from source to target, the
/// inverse of their product where both lead the other way, and a quotient
/// where they share their source or their target.
pub proof fn lemma_triangulation<T: DataNumberType>(
    source: Currency,
    middle: Currency,
    target: Currency,
    head: T,
    tail: T,
)
    requires
        source != middle,
        middle != target,
        source != target,
    ensures
        lookup_spec(seq![((source, middle), head), ((middle, target), tail)], source, target)
            == rate_between(source, target, head.mul_spec(tail)),
        lookup_spec(seq![((middle, source), head), ((target, middle), tail)], source, target)
            == rate_between(source, target, inverse_of_product(head, tail)),
        lookup_spec(seq![((middle, source), head), ((middle, target), tail)], source, target)
            == rate_between(source, target, tail.div_spec(head)),
        lookup_spec(seq![((source, middle), head), ((target, middle), tail)], source, target)
            == rate_between(source, target, head.div_spec(tail)),
{
    lemma_two_legs(source, target, (source, middle), head, (middle, target), tail);
    lemma_two_legs(source, target, (middle, source), head, (target, middle), tail);
    lemma_two_legs(source, target, (middle, source), head, (middle, target), tail);
    lemma_two_legs(source, target, (source, middle), head, (target, middle), tail);
}

/// A cache of two rates under different pairs, neither of them the pair
/// asked for, answers with what its first entry leads to.
proof fn lemma_two_legs<T: DataNumberType>(
    source: Currency,
    target: Currency,
    first: (Currency, Currency),
    head: T,
    second: (Currency, Currency),
    tail: T,
)
    requires
        first != second,
        first != (source, target),
        second != (source, target),
        source != target,
    ensures
        ({
            let entries = seq![(first, head), (second, tail)];
            let rates = crate::table::entries_map(entries);
            &&& rates.contains_key(first) && rates[first] == head
            &&& rates.contains_key(second) && rates[second] == tail
            &&& forall|pair: (Currency, Currency)|
                rates.contains_key(pair) ==> pair == first || pair == second
            &&& lookup_spec(entries, source, target) == triangulate(entries, source, target, 0)
        }),
{
    let entries = seq![(first, head), (second, tail)];
    crate::table::lemma_entry_at(entries, 0);
    crate::table::lemma_entry_at(entries, 1);
    let rates = crate::table::entries_map(entries);
    assert forall|pair: (Currency, Currency)| rates.contains_key(pair) implies pair == first
        || pair == second by {
    }
}

/// A rate that was stored is the rate that the cache answers for its pair.
pub proof fn lemma_lookup_after_update<T: DataNumberType>(
    entries: Seq<((Currency, Currency), T)>,
    source: Currency,
    target: Currency,
    rate: T,
)
    requires
        crate::table::distinct_keys(entries),
        source != target,
    ensures
        lookup_spec(crate::table::entries_insert(entries, (source, target), rate), source, target)
            == Some(ExchangeRate { source, target, rate }),
{
    if crate::table::has_key(entries, (source, target)) {
        let i = crate::table::position(entries, (source, target));
        crate::table::lemma_replace(entries, i, (source, target), rate);
    } else {
        crate::table::lemma_push_new(entries, (source, target), rate);
    }
}

/// The cache of exchange rates: one rate per observed pair of currencies, kept
/// in the order in which the pairs were first observed.
pub struct FXManager<T: DataNumberType> {
    data: Table<(Currency, Currency), T>,
}

impl<T: DataNumberType> View for FXManager<T> {
    type V = Map<(Currency, Currency), T>;

    /// The stored rates by pair of source and target.
    open spec fn view(&self) -> Map<(Currency, Currency), T> {
        crate::table::entries_map(self.entries())
    }
}

impl<T: DataNumberType> FXManager<T> {
    /// The stored pairs and rates in the order in which the pairs first came.
    pub closed spec fn entries(&self) -> Seq<((Currency, Currency), T)> {
        self.data.entries()
    }

    /// An empty cache.
    pub fn new() -> (r: Self)
        ensures
            r.entries() == Seq::<((Currency, Currency), T)>::empty(),
            r@ == Map::<(Currency, Currency), T>::empty(),
    {
        FXManager { data: Table::new() }
    }

    /// Stores a direct rate; a later rate for a pair replaces the earlier one.
    pub fn update(&mut self, source: Currency, target: Currency, rate: T)
        ensures
            final(self)@ == old(self)@.insert((source, target), rate),
            final(self).entries() == crate::table::entries_insert(
                old(self).entries(),
                (source, target),
                rate,
            ),
    {
        self.data.insert((source, target), rate);
    }

    /// The stored direct rate of a pair.
    pub fn get_rate(&self, source: Currency, target: Currency) -> (r: Option<ExchangeRate<T>>)
        ensures
            r == (if self@.contains_key((source, target)) {
                Some(ExchangeRate { source, target, rate: self@[(source, target)] })
            } else {
                None
            }),
    {
        match self.data.get(&(source, target)) {
            Some(rate) => Some(ExchangeRate::new(source, target, *rate)),
            None => None,
        }
    }

    /// Whether a direct rate of a pair is stored.
    pub fn contains(&self, source: Currency, target: Currency) -> (r: bool)
        ensures
            r == self@.contains_key((source, target)),
    {
        self.data.contains_key(&(source, target))
    }

    /// The rate from `source` to `target`: 1 for a currency with itself, else
    /// the stored direct rate, else the rate derived from two stored rates
    /// through one intermediary currency. Longer chains are not tried.
    pub fn lookup(&self, source: Currency, target: Currency) -> (r: Option<ExchangeRate<T>>)
        ensures
            r == lookup_spec(self.entries(), source, target),
            r matches Some(x) ==> x.source == source && x.target == target,
    {
        if source == target {
            return Some(ExchangeRate::new(source, target, T::from_i8(1)));
        }
        if self.contains(source, target) {
            return self.get_rate(source, target);
        }
        let n = self.data.len();
        let mut i: usize = 0;
        while i < n
            invariant
                n == self.data.entries().len(),
                i <= n,
                source != target,
                !self@.contains_key((source, target)),
                triangulate(self.entries(), source, target, 0) == triangulate(
                    self.entries(),
                    source,
                    target,
                    i as int,
                ),
            decreases n - i,
        {
            let pair = *self.data.key_at(i);
            let rate = *self.data.value_at(i);
            let via = if pair.0 == source {
                Some(pair.1)
            } else if pair.1 == source {
                Some(pair.0)
            } else {
                None
            };
            if let Some(via) = via {
                if via != source && via != target {
                    let tail = match self.get_rate(via, target) {
                        Some(x) => Some(x),
                        None => self.get_rate(target, via),
                    };
                    if let Some(tail) = tail {
                        let head = ExchangeRate::new(pair.0, pair.1, rate);
                        proof {
                            assert(legs_through(self@, self.entries()[i as int], source, target)
                                == Some((head, tail)));
                            assert(triangulate(self.entries(), source, target, i as int)
                                == chain_spec(head, tail));
                            lemma_triangulate_ends(self.entries(), source, target, i as int);
                        }
                        return match ExchangeRate::chain(&head, &tail) {
                            Ok(x) => Some(x),
                            Err(_) => None,
                        };
                    }
                }
            }
            i += 1;
        }
        None
    }
}

} // verus!
