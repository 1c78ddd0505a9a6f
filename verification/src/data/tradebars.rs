//! Bars: open, high, low, close and volume of one instrument over one period,
//! and the set of bars of one slice.

use vstd::prelude::*;
use crate::DataNumberType;
use crate::security::SecuritySymbol;
use crate::security::SymbolId;
use crate::table::Table;
use crate::table::TableKey;
use crate::utils::Merge;

verus! {

/// Open, high, low, close and volume of one instrument over one period. Times
/// are milliseconds since the epoch.
#[derive(Debug, Clone, Copy, PartialEq)]
pub struct TradeBar<T: DataNumberType> {
    pub volume: T,
    pub open: T,
    pub high: T,
    pub low: T,
    pub close: T,
    pub start_time: i64,
    pub end_time: i64,
    /// Whether the values repeat the previous bar because nothing new arrived.
    pub is_fill_fwd: bool,
}

impl<T: DataNumberType> TradeBar<T> {
    pub fn new(
        volume: T,
        open: T,
        high: T,
        low: T,
        close: T,
        start_time: i64,
        end_time: i64,
        is_fill_fwd: bool,
    ) -> (r: Self)
        ensures
            r == (TradeBar { volume, open, high, low, close, start_time, end_time, is_fill_fwd }),
    {
        TradeBar { volume, open, high, low, close, start_time, end_time, is_fill_fwd }
    }

    /// The latest price of the bar: its close.
    pub fn get_spot(&self) -> (r: T)
        ensures
            r == self.close,
    {
        self.close
    }
}

/// The bars of one slice, one per instrument.
pub struct TradeBars<T: DataNumberType> {
    data: Table<SecuritySymbol, TradeBar<T>>,
}

impl<T: DataNumberType> View for TradeBars<T> {
    type V = Map<SymbolId, TradeBar<T>>;

    /// The bars by instrument.
    closed spec fn view(&self) -> Map<SymbolId, TradeBar<T>> {
        self.data@
    }
}

impl<T: DataNumberType> TradeBars<T> {
    /// The instruments in the order in which their first bar came.
    pub closed spec fn symbol_ids(&self) -> Seq<SymbolId> {
        Seq::new(self.data.entries().len(), |i: int| self.data.entries()[i].0@)
    }

    pub fn new() -> (r: Self)
        ensures
            r@ == Map::<SymbolId, TradeBar<T>>::empty(),
            r.symbol_ids() == Seq::<SymbolId>::empty(),
    {
        TradeBars { data: Table::new() }
    }

    /// Stores the bar of an instrument; a later bar replaces an earlier one.
    pub fn add(&mut self, symbol: SecuritySymbol, tradebar: TradeBar<T>)
        ensures
            final(self)@ == old(self)@.insert(symbol@, tradebar),
            old(self)@.contains_key(symbol@) ==> final(self).symbol_ids() == old(self).symbol_ids(),
            !old(self)@.contains_key(symbol@) ==> final(self).symbol_ids()
                == old(self).symbol_ids().push(symbol@),
    {
        self.data.insert(symbol, tradebar);
    }

    /// The instruments that have a bar, in the order in which their first
    /// bar came.
    pub fn symbols(&self) -> (r: Vec<SecuritySymbol>)
        ensures
            r@.len() == self.symbol_ids().len(),
            forall|i: int| 0 <= i < r@.len() ==> (#[trigger] r@[i])@ == self.symbol_ids()[i],
            forall|id: SymbolId|
                self@.contains_key(id) <==> exists|i: int|
                    0 <= i < r@.len() && (#[trigger] r@[i])@ == id,
    {
        let mut out: Vec<SecuritySymbol> = Vec::new();
        let mut i: usize = 0;
        let n = self.data.len();
        while i < n
            invariant
                n == self.data.entries().len(),
                i <= n,
                out@.len() == i,
                forall|j: int| 0 <= j < i ==> (#[trigger] out@[j])@ == self.data.entries()[j].0@,
            decreases n - i,
        {
            out.push(self.data.key_at(i).clone());
            i += 1;
        }
        proof {
            let entries = self.data.entries();
            assert forall|id: SymbolId|
                self@.contains_key(id) <==> exists|i: int|
                    0 <= i < out@.len() && (#[trigger] out@[i])@ == id by {
                if self@.contains_key(id) {
                    let p = crate::table::position(entries, id);
                    assert(out@[p]@ == id);
                }
                if exists|i: int| 0 <= i < out@.len() && (#[trigger] out@[i])@ == id {
                    let p = choose|i: int| 0 <= i < out@.len() && (#[trigger] out@[i])@ == id;
                    assert(entries[p].0.id() == id);
                }
            }
        }
        out
    }

    pub fn contains_symbol(&self, key: &SecuritySymbol) -> (r: bool)
        ensures
            r == self@.contains_key(key@),
    {
        self.data.contains_key(key)
    }

    pub fn get_bar(&self, symbol: &SecuritySymbol) -> (r: Option<&TradeBar<T>>)
        ensures
            r is Some <==> self@.contains_key(symbol@),
            r matches Some(bar) ==> *bar == self@[symbol@],
    {
        self.data.get(symbol)
    }

    /// Whether any instrument has a bar.
    pub fn has_data(&self) -> (r: bool)
        ensures
            r == (self@ != Map::<SymbolId, TradeBar<T>>::empty()),
            r == (self.symbol_ids().len() > 0),
    {
        !self.data.is_empty()
    }
}

impl<T: DataNumberType> Merge for TradeBars<T> {
    /// The bars of both; where both have a bar of an instrument, the other's.
    open spec fn merges(before: Self, other: Self, after: Self) -> bool {
        after@ == before@.union_prefer_right(other@)
    }

    fn merge(&mut self, other: Self) {
        let ghost before = self@;
        let n = other.data.len();
        let mut i: usize = 0;
        while i < n
            invariant
                i <= n,
                n == other.data.entries().len(),
                self@ == crate::table::stored_into(before, other.data.entries(), i as int),
            decreases n - i,
        {
            let symbol = other.data.key_at(i).clone();
            let bar = *other.data.value_at(i);
            self.add(symbol, bar);
            i += 1;
        }
        proof {
            crate::table::lemma_stored_into(before, other.data.entries(), n as int);
            assert(other.data.entries().take(n as int) =~= other.data.entries());
        }
    }
}

} // verus!
