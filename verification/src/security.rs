//! Instruments and currencies: the symbol an instrument is known by, its kind,
//! and the details a portfolio keeps of it.

use vstd::prelude::*;
use crate::NumberType;
use crate::table::TableKey;

verus! {

/// The kinds of instrument.
#[derive(Debug, Clone, Copy, PartialEq, Eq, Structural)]
pub enum SecurityType {
    Equity,
    FX,
}

/// What a portfolio keeps of a registered instrument.
#[derive(Debug, Clone, Copy, PartialEq)]
pub enum Security<T: NumberType> {
    Equity(Equity<T>),
}

impl<T: NumberType> Security<T> {
    pub fn security_type(&self) -> (r: SecurityType)
        ensures
            r == SecurityType::Equity,
    {
        match self {
            Security::Equity(_) => SecurityType::Equity,
        }
    }

    /// The currency the instrument is priced in.
    pub open spec fn spec_currency(&self) -> Currency {
        match self {
            Security::Equity(x) => x.currency,
        }
    }

    /// The smallest step by which the instrument's price moves.
    pub open spec fn spec_minimum_price_variation(&self) -> T {
        match self {
            Security::Equity(x) => x.minimum_price_variation,
        }
    }

    #[verifier::when_used_as_spec(spec_currency)]
    pub fn get_currency(&self) -> (r: Currency)
        ensures
            r == self.spec_currency(),
    {
        match self {
            Security::Equity(x) => x.currency,
        }
    }

    #[verifier::when_used_as_spec(spec_minimum_price_variation)]
    pub fn get_minimum_price_variation(&self) -> (r: T)
        ensures
            r == self.spec_minimum_price_variation(),
    {
        match self {
            Security::Equity(x) => x.minimum_price_variation,
        }
    }
}

/// The name an instrument is known by: a ticker, or a pair of currencies.
#[derive(Debug, PartialEq, Eq, Hash)]
pub enum SecuritySymbol {
    Equity(String),
    FX(Currency, Currency),
}

/// A symbol as a value: the ticker's characters, or the currency pair.
pub enum SymbolId {
    Equity(Seq<char>),
    FX(Currency, Currency),
}

impl View for SecuritySymbol {
    type V = SymbolId;

    open spec fn view(&self) -> SymbolId {
        match self {
            SecuritySymbol::Equity(x) => SymbolId::Equity(x@),
            SecuritySymbol::FX(base, foreign) => SymbolId::FX(*base, *foreign),
        }
    }
}

impl Clone for SecuritySymbol {
    fn clone(&self) -> (r: Self)
        ensures
            r == *self,
    {
        match self {
            SecuritySymbol::Equity(x) => SecuritySymbol::Equity(x.clone()),
            SecuritySymbol::FX(base, foreign) => SecuritySymbol::FX(*base, *foreign),
        }
    }
}

impl SecuritySymbol {
    /// The ticker of an equity; for a currency pair, the empty string.
    pub open spec fn spec_symbol(&self) -> Seq<char> {
        match self {
            SecuritySymbol::Equity(x) => x@,
            SecuritySymbol::FX(_, _) => Seq::empty(),
        }
    }

    pub open spec fn spec_security_type(&self) -> SecurityType {
        match self {
            SecuritySymbol::Equity(_) => SecurityType::Equity,
            SecuritySymbol::FX(_, _) => SecurityType::FX,
        }
    }

    pub fn symbol(&self) -> (r: String)
        ensures
            r@ == self.spec_symbol(),
    {
        match self {
            SecuritySymbol::Equity(x) => x.clone(),
            SecuritySymbol::FX(_, _) => String::new(),
        }
    }

    #[verifier::when_used_as_spec(spec_security_type)]
    pub fn security_type(&self) -> (r: SecurityType)
        ensures
            r == self.spec_security_type(),
    {
        match self {
            SecuritySymbol::Equity(_) => SecurityType::Equity,
            SecuritySymbol::FX(_, _) => SecurityType::FX,
        }
    }

    /// Whether two symbols name the same instrument.
    pub fn same(&self, other: &SecuritySymbol) -> (r: bool)
        ensures
            r == (self@ == other@),
    {
        match self {
            SecuritySymbol::Equity(x) => match other {
                SecuritySymbol::Equity(y) => *x == *y,
                SecuritySymbol::FX(_, _) => false,
            },
            SecuritySymbol::FX(a, b) => match other {
                SecuritySymbol::Equity(_) => false,
                SecuritySymbol::FX(c, d) => *a == *c && *b == *d,
            },
        }
    }
}

impl TableKey for SecuritySymbol {
    type Id = SymbolId;

    open spec fn id(&self) -> SymbolId {
        self@
    }

    fn same_key(&self, other: &Self) -> (r: bool) {
        self.same(other)
    }
}

/// An equity's details: the currency it is priced in and its smallest price
/// step.
#[derive(Debug, Clone, Copy, PartialEq)]
pub struct Equity<T: NumberType> {
    pub currency: Currency,
    pub minimum_price_variation: T,
}

impl<T: NumberType> Equity<T> {
    pub fn new(currency: Currency, minimum_price_variation: T) -> (r: Self)
        ensures
            r == (Equity { currency, minimum_price_variation }),
    {
        Equity { currency, minimum_price_variation }
    }

    pub fn get_currency(&self) -> (r: Currency)
        ensures
            r == self.currency,
    {
        self.currency
    }
}

/// The currencies, by their three-letter codes.
#[derive(Debug, Clone, Copy, PartialEq, Eq, Hash, Structural)]
pub enum Currency {
    AED,
    AFN,
    ALL,
    AMD,
    ANG,
    AOA,
    ARS,
    AUD,
    AWG,
    AZN,
    BAM,
    BBD,
    BDT,
    BGN,
    BHD,
    BIF,
    BMD,
    BND,
    BOB,
    BOV,
    BRL,
    BSD,
    BTN,
    BWP,
    BYN,
    BZD,
    CAD,
    CDF,
    CHE,
    CHF,
    CHW,
    CLF,
    CLP,
    COP,
    COU,
    CRC,
    CUC,
    CUP,
    CVE,
    CZK,
    DJF,
    DKK,
    DOP,
    DZD,
    EGP,
    ERN,
    ETB,
    EUR,
    FJD,
    FKP,
    GBP,
    GEL,
    GHS,
    GIP,
    GMD,
    GNF,
    GTQ,
    GYD,
    HKD,
    HNL,
    HTG,
    HUF,
    IDR,
    ILS,
    INR,
    IQD,
    IRR,
    ISK,
    JMD,
    JOD,
    JPY,
    KES,
    KGS,
    KHR,
    KMF,
    KPW,
    KRW,
    KWD,
    KYD,
    KZT,
    LAK,
    LBP,
    LKR,
    LRD,
    LSL,
    LYD,
    MAD,
    MDL,
    MGA,
    MKD,
    MMK,
    MNT,
    MOP,
    MRU,
    MUR,
    MVR,
    MWK,
    MXN,
    MXV,
    MYR,
    MZN,
    NAD,
    NGN,
    NIO,
    NOK,
    NPR,
    NZD,
    OMR,
    PAB,
    PEN,
    PGK,
    PHP,
    PKR,
    PLN,
    PYG,
    QAR,
    RON,
    RSD,
    CNY,
    RUB,
    RWF,
    SAR,
    SBD,
    SCR,
    SDG,
    SEK,
    SGD,
    SHP,
    SLE,
    SLL,
    SOS,
    SRD,
    SSP,
    STN,
    SVC,
    SYP,
    SZL,
    THB,
    TJS,
    TMT,
    TND,
    TOP,
    TRY,
    TTD,
    TWD,
    TZS,
    UAH,
    UGX,
    USD,
    USN,
    UYI,
    UYU,
    UYW,
    UZS,
    VED,
    VES,
    VND,
    VUV,
    WST,
    XAF,
    XAG,
    XAU,
    XBA,
    XBB,
    XBC,
    XBD,
    XCD,
    XDR,
    XOF,
    XPD,
    XPF,
    XPT,
    XSU,
    XTS,
    XUA,
    YER,
    ZAR,
    ZMW,
    ZWL,
}

impl TableKey for Currency {
    type Id = Currency;

    open spec fn id(&self) -> Currency {
        *self
    }

    fn same_key(&self, other: &Self) -> (r: bool) {
        *self == *other
    }
}

} // verus!
