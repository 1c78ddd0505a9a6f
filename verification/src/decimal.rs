//! A fixed-point decimal number whose arithmetic is that of the `rust_decimal`
//! crate.
//!
//! A [`FixedDecimal`] holds the two integers that determine a decimal number:
//! a signed mantissa of at most 96 bits and a scale from 0 to 28; it stands for
//! the mantissa divided by ten to the power of the scale.

use vstd::prelude::*;
use rust_decimal::Decimal;
use crate::NumberType;
use crate::DataNumberType;
use crate::PortfolioNumberType;

verus! {

/// The largest mantissa, `2^96 - 1`.
pub const MAX_MANTISSA: i128 = 79228162514264337593543950335;

/// The largest scale.
pub const MAX_SCALE: u32 = 28;

/// Whether a mantissa and a scale determine a decimal number.
pub open spec fn valid_parts(mantissa: i128, scale: u32) -> bool {
    -MAX_MANTISSA <= mantissa <= MAX_MANTISSA && scale <= MAX_SCALE
}

/// Ten to the power of `n`.
pub open spec fn pow10(n: nat) -> int
    decreases n,
{
    if n == 0 {
        1
    } else {
        10 * pow10((n - 1) as nat)
    }
}

/// Whether `am / 10^ascale` is less than `bm / 10^bscale`.
pub open spec fn parts_lt(am: i128, ascale: u32, bm: i128, bscale: u32) -> bool {
    am * pow10(bscale as nat) < bm * pow10(ascale as nat)
}

/// Whether `am / 10^ascale` and `bm / 10^bscale` are the same number.
pub open spec fn parts_eq(am: i128, ascale: u32, bm: i128, bscale: u32) -> bool {
    am * pow10(bscale as nat) == bm * pow10(ascale as nat)
}

/// Mantissa and scale of the sum that `rust_decimal` computes for two decimal
/// numbers given by mantissa and scale; `None` where it reports an overflow.
pub uninterp spec fn decimal_sum(am: i128, ascale: u32, bm: i128, bscale: u32) -> Option<(i128, u32)>;

/// Mantissa and scale of the difference that `rust_decimal` computes; `None`
/// where it reports an overflow.
pub uninterp spec fn decimal_difference(am: i128, ascale: u32, bm: i128, bscale: u32) -> Option<(i128, u32)>;

/// Mantissa and scale of the product that `rust_decimal` computes; `None`
/// where it reports an overflow.
pub uninterp spec fn decimal_product(am: i128, ascale: u32, bm: i128, bscale: u32) -> Option<(i128, u32)>;

/// Mantissa and scale of the quotient that `rust_decimal` computes; `None`
/// where it reports an overflow or a division by zero.
pub uninterp spec fn decimal_quotient(am: i128, ascale: u32, bm: i128, bscale: u32) -> Option<(i128, u32)>;

/// Mantissa and scale of the remainder that `rust_decimal` computes; `None`
/// where it reports an overflow or a division by zero.
pub uninterp spec fn decimal_remainder(am: i128, ascale: u32, bm: i128, bscale: u32) -> Option<(i128, u32)>;

/// Calls `rust_decimal::Decimal::checked_add` on the two numbers built by
/// `Decimal::from_i128_with_scale`, and reads the sum back with
/// `Decimal::mantissa` and `Decimal::scale`.
///
/// Not proved, but taken from the crate: the answer is a function of the four
/// integers alone, named [`decimal_sum`]; it is `None` where the crate reports
/// an overflow; and a sum has a mantissa of at most 96 bits and a scale of at
/// most 28. The two numbers must be valid, or the crate panics when they are
/// built.
#[verifier::external_body]
fn decimal_checked_add(am: i128, ascale: u32, bm: i128, bscale: u32) -> (r: Option<(i128, u32)>)
    requires
        valid_parts(am, ascale),
        valid_parts(bm, bscale),
    ensures
        r == decimal_sum(am, ascale, bm, bscale),
        r matches Some(p) ==> valid_parts(p.0, p.1),
{
    let a = Decimal::from_i128_with_scale(am, ascale);
    let b = Decimal::from_i128_with_scale(bm, bscale);
    match a.checked_add(b) {
        Some(c) => Some((c.mantissa(), c.scale())),
        None => None,
    }
}

/// Calls `rust_decimal::Decimal::checked_sub` on the two numbers built by
/// `Decimal::from_i128_with_scale`, and reads the difference back with
/// `Decimal::mantissa` and `Decimal::scale`.
///
/// Not proved, but taken from the crate: the answer is a function of the four
/// integers alone, named [`decimal_difference`]; it is `None` where the crate
/// reports an overflow; and a difference has a mantissa of at most 96 bits
/// and a scale of at most 28.
#[verifier::external_body]
fn decimal_checked_sub(am: i128, ascale: u32, bm: i128, bscale: u32) -> (r: Option<(i128, u32)>)
    requires
        valid_parts(am, ascale),
        valid_parts(bm, bscale),
    ensures
        r == decimal_difference(am, ascale, bm, bscale),
        r matches Some(p) ==> valid_parts(p.0, p.1),
{
    let a = Decimal::from_i128_with_scale(am, ascale);
    let b = Decimal::from_i128_with_scale(bm, bscale);
    match a.checked_sub(b) {
        Some(c) => Some((c.mantissa(), c.scale())),
        None => None,
    }
}

/// Calls `rust_decimal::Decimal::checked_mul` on the two numbers built by
/// `Decimal::from_i128_with_scale`, and reads the product back with
/// `Decimal::mantissa` and `Decimal::scale`.
///
/// Not proved, but taken from the crate: the answer is a function of the four
/// integers alone, named [`decimal_product`]; it is `None` where the crate
/// reports an overflow; and a product has a mantissa of at most 96 bits and a
/// scale of at most 28.
#[verifier::external_body]
fn decimal_checked_mul(am: i128, ascale: u32, bm: i128, bscale: u32) -> (r: Option<(i128, u32)>)
    requires
        valid_parts(am, ascale),
        valid_parts(bm, bscale),
    ensures
        r == decimal_product(am, ascale, bm, bscale),
        r matches Some(p) ==> valid_parts(p.0, p.1),
{
    let a = Decimal::from_i128_with_scale(am, ascale);
    let b = Decimal::from_i128_with_scale(bm, bscale);
    match a.checked_mul(b) {
        Some(c) => Some((c.mantissa(), c.scale())),
        None => None,
    }
}

/// Calls `rust_decimal::Decimal::checked_div` on the two numbers built by
/// `Decimal::from_i128_with_scale`, and reads the quotient back with
/// `Decimal::mantissa` and `Decimal::scale`.
///
/// Not proved, but taken from the crate: the answer is a function of the four
/// integers alone, named [`decimal_quotient`]; it is `None` where the crate
/// reports an overflow or a division by zero; and a quotient has a mantissa
/// of at most 96 bits and a scale of at most 28.
#[verifier::external_body]
fn decimal_checked_div(am: i128, ascale: u32, bm: i128, bscale: u32) -> (r: Option<(i128, u32)>)
    requires
        valid_parts(am, ascale),
        valid_parts(bm, bscale),
    ensures
        r == decimal_quotient(am, ascale, bm, bscale),
        r matches Some(p) ==> valid_parts(p.0, p.1),
{
    let a = Decimal::from_i128_with_scale(am, ascale);
    let b = Decimal::from_i128_with_scale(bm, bscale);
    match a.checked_div(b) {
        Some(c) => Some((c.mantissa(), c.scale())),
        None => None,
    }
}

/// Calls `rust_decimal::Decimal::checked_rem` on the two numbers built by
/// `Decimal::from_i128_with_scale`, and reads the remainder back with
/// `Decimal::mantissa` and `Decimal::scale`.
///
/// Not proved, but taken from the crate: the answer is a function of the four
/// integers alone, named [`decimal_remainder`]; it is `None` where the crate
/// reports an overflow or a division by zero; and a remainder has a mantissa
/// of at most 96 bits and a scale of at most 28.
#[verifier::external_body]
fn decimal_checked_rem(am: i128, ascale: u32, bm: i128, bscale: u32) -> (r: Option<(i128, u32)>)
    requires
        valid_parts(am, ascale),
        valid_parts(bm, bscale),
    ensures
        r == decimal_remainder(am, ascale, bm, bscale),
        r matches Some(p) ==> valid_parts(p.0, p.1),
{
    let a = Decimal::from_i128_with_scale(am, ascale);
    let b = Decimal::from_i128_with_scale(bm, bscale);
    match a.checked_rem(b) {
        Some(c) => Some((c.mantissa(), c.scale())),
        None => None,
    }
}

/// Compares the two numbers built by `Decimal::from_i128_with_scale` with
/// the `<` of `rust_decimal::Decimal`, that is with its `PartialOrd::lt`.
///
/// Not proved, but taken from the crate: `Decimal` is ordered by the value of
/// the number, whatever the scales, so the first is less where its mantissa
/// times ten to the second's scale is less than the second's mantissa times
/// ten to the first's scale.
#[verifier::external_body]
fn decimal_less_than(am: i128, ascale: u32, bm: i128, bscale: u32) -> (r: bool)
    requires
        valid_parts(am, ascale),
        valid_parts(bm, bscale),
    ensures
        r == parts_lt(am, ascale, bm, bscale),
{
    Decimal::from_i128_with_scale(am, ascale) < Decimal::from_i128_with_scale(bm, bscale)
}

/// Compares the two numbers built by `Decimal::from_i128_with_scale` with
/// the `==` of `rust_decimal::Decimal`, that is with its `PartialEq::eq`.
///
/// Not proved, but taken from the crate: two `Decimal`s are equal where they
/// are the same number, whatever the scales.
#[verifier::external_body]
fn decimal_equal(am: i128, ascale: u32, bm: i128, bscale: u32) -> (r: bool)
    requires
        valid_parts(am, ascale),
        valid_parts(bm, bscale),
    ensures
        r == parts_eq(am, ascale, bm, bscale),
{
    Decimal::from_i128_with_scale(am, ascale) == Decimal::from_i128_with_scale(bm, bscale)
}

/// A decimal number: `mantissa / 10^scale`.
#[derive(Debug, Clone, Copy)]
pub struct FixedDecimal {
    mantissa: i128,
    scale: u32,
}

impl FixedDecimal {
    #[verifier::type_invariant]
    spec fn in_range(self) -> bool {
        valid_parts(self.mantissa, self.scale)
    }

    /// The mantissa, as a specification.
    pub closed spec fn spec_mantissa(self) -> i128 {
        self.mantissa
    }

    /// The scale, as a specification.
    pub closed spec fn spec_scale(self) -> u32 {
        self.scale
    }

    /// The number that a result of the decimal arithmetic stands for, as a
    /// specification.
    pub closed spec fn from_parts(parts: Option<(i128, u32)>) -> Option<FixedDecimal> {
        match parts {
            Some(p) => Some(FixedDecimal { mantissa: p.0, scale: p.1 }),
            None => None,
        }
    }

    /// The decimal number `mantissa / 10^scale`, or `None` where the mantissa
    /// needs more than 96 bits or the scale exceeds 28.
    pub fn new(mantissa: i128, scale: u32) -> (r: Option<FixedDecimal>)
        ensures
            r is Some <==> valid_parts(mantissa, scale),
            r matches Some(d) ==> d.spec_mantissa() == mantissa && d.spec_scale() == scale,
    {
        if -MAX_MANTISSA <= mantissa && mantissa <= MAX_MANTISSA && scale <= MAX_SCALE {
            Some(FixedDecimal { mantissa, scale })
        } else {
            None
        }
    }

    #[verifier::when_used_as_spec(spec_mantissa)]
    pub fn mantissa(self) -> (r: i128)
        ensures
            r == self.spec_mantissa(),
            valid_parts(r, self.spec_scale()),
    {
        proof {
            use_type_invariant(&self);
        }
        self.mantissa
    }

    #[verifier::when_used_as_spec(spec_scale)]
    pub fn scale(self) -> (r: u32)
        ensures
            r == self.spec_scale(),
            valid_parts(self.spec_mantissa(), r),
    {
        proof {
            use_type_invariant(&self);
        }
        self.scale
    }

    /// The number that a result of the decimal arithmetic stands for: the
    /// number with the result's mantissa and scale, or nothing where the
    /// arithmetic had no result.
    pub fn of_parts(parts: Option<(i128, u32)>) -> (r: Option<FixedDecimal>)
        requires
            parts matches Some(p) ==> valid_parts(p.0, p.1),
        ensures
            r == Self::from_parts(parts),
            parts is None ==> r is None,
            parts matches Some(p) ==> (r matches Some(d) && d.spec_mantissa() == p.0
                && d.spec_scale() == p.1),
    {
        match parts {
            Some(p) => Some(FixedDecimal { mantissa: p.0, scale: p.1 }),
            None => None,
        }
    }
}

/// A result of the decimal arithmetic stands for the number with the
/// result's mantissa and scale, and no result stands for no number.
pub proof fn lemma_from_parts(mantissa: i128, scale: u32)
    ensures
        FixedDecimal::from_parts(Some((mantissa, scale))) matches Some(d) && d.spec_mantissa()
            == mantissa && d.spec_scale() == scale,
        FixedDecimal::from_parts(None) is None,
{
}

impl PartialEq for FixedDecimal {
    /// Whether the two are the same number, whatever their scales.
    fn eq(&self, other: &Self) -> (r: bool) {
        proof {
            use_type_invariant(self);
            use_type_invariant(other);
        }
        decimal_equal(self.mantissa, self.scale, other.mantissa, other.scale)
    }
}

impl vstd::std_specs::cmp::PartialEqSpecImpl for FixedDecimal {
    open spec fn obeys_eq_spec() -> bool {
        true
    }

    open spec fn eq_spec(&self, other: &Self) -> bool {
        parts_eq(self.mantissa(), self.scale(), other.mantissa(), other.scale())
    }
}

impl NumberType for FixedDecimal {
    open spec fn add_spec(self, rhs: Self) -> Option<Self> {
        Self::from_parts(decimal_sum(self.mantissa(), self.scale(), rhs.mantissa(), rhs.scale()))
    }

    open spec fn sub_spec(self, rhs: Self) -> Option<Self> {
        Self::from_parts(
            decimal_difference(self.mantissa(), self.scale(), rhs.mantissa(), rhs.scale()),
        )
    }

    open spec fn mul_spec(self, rhs: Self) -> Option<Self> {
        Self::from_parts(
            decimal_product(self.mantissa(), self.scale(), rhs.mantissa(), rhs.scale()),
        )
    }

    open spec fn div_spec(self, rhs: Self) -> Option<Self> {
        Self::from_parts(
            decimal_quotient(self.mantissa(), self.scale(), rhs.mantissa(), rhs.scale()),
        )
    }

    open spec fn rem_spec(self, rhs: Self) -> Option<Self> {
        Self::from_parts(
            decimal_remainder(self.mantissa(), self.scale(), rhs.mantissa(), rhs.scale()),
        )
    }

    open spec fn lt_spec(self, rhs: Self) -> bool {
        parts_lt(self.mantissa(), self.scale(), rhs.mantissa(), rhs.scale())
    }

    open spec fn from_i8_spec(v: i8) -> Self {
        Self::from_parts(Some((v as i128, 0u32))).unwrap()
    }

    fn checked_add(self, rhs: Self) -> (r: Option<Self>) {
        proof {
            use_type_invariant(&self);
            use_type_invariant(&rhs);
        }
        Self::of_parts(decimal_checked_add(self.mantissa, self.scale, rhs.mantissa, rhs.scale))
    }

    fn checked_sub(self, rhs: Self) -> (r: Option<Self>) {
        proof {
            use_type_invariant(&self);
            use_type_invariant(&rhs);
        }
        Self::of_parts(decimal_checked_sub(self.mantissa, self.scale, rhs.mantissa, rhs.scale))
    }

    fn checked_mul(self, rhs: Self) -> (r: Option<Self>) {
        proof {
            use_type_invariant(&self);
            use_type_invariant(&rhs);
        }
        Self::of_parts(decimal_checked_mul(self.mantissa, self.scale, rhs.mantissa, rhs.scale))
    }

    fn checked_div(self, rhs: Self) -> (r: Option<Self>) {
        proof {
            use_type_invariant(&self);
            use_type_invariant(&rhs);
        }
        Self::of_parts(decimal_checked_div(self.mantissa, self.scale, rhs.mantissa, rhs.scale))
    }

    fn checked_rem(self, rhs: Self) -> (r: Option<Self>) {
        proof {
            use_type_invariant(&self);
            use_type_invariant(&rhs);
        }
        Self::of_parts(decimal_checked_rem(self.mantissa, self.scale, rhs.mantissa, rhs.scale))
    }

    fn less_than(self, rhs: Self) -> (r: bool) {
        proof {
            use_type_invariant(&self);
            use_type_invariant(&rhs);
        }
        decimal_less_than(self.mantissa, self.scale, rhs.mantissa, rhs.scale)
    }

    fn from_i8(v: i8) -> (r: Self)
        ensures
            r.spec_mantissa() == v,
            r.spec_scale() == 0,
    {
        FixedDecimal { mantissa: v as i128, scale: 0 }
    }
}

impl DataNumberType for FixedDecimal {
}

impl PortfolioNumberType for FixedDecimal {
}

} // verus!
