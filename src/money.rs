//! Exact decimal amounts.
//!
//! A `Money` is a decimal number `mantissa / 10^scale` held in the range that
//! `rust_decimal::Decimal` can represent: a mantissa of at most 96 bits and a
//! scale of at most 28. The arithmetic itself is done by `rust_decimal`; what
//! it returns is named below, together with the few facts that its source
//! makes plain.
use rust_decimal::Decimal;
use vstd::prelude::*;

verus! {

/// Largest mantissa magnitude of a decimal: 2^96 - 1.
pub const MAX_MANTISSA: i128 = 79228162514264337593543950335;

/// Largest number of digits after the decimal point.
pub const MAX_SCALE: u32 = 28;

/// 10 to the power `n`.
pub open spec fn pow10(n: nat) -> int
    decreases n,
{
    if n == 0 {
        1
    } else {
        10 * pow10((n - 1) as nat)
    }
}

/// The parts of a decimal that `rust_decimal` can represent.
pub open spec fn valid_parts(mantissa: int, scale: nat) -> bool {
    -MAX_MANTISSA <= mantissa <= MAX_MANTISSA && scale <= MAX_SCALE
}

/// An exact decimal amount: `mantissa / 10^scale`.
#[derive(Clone, Copy, Debug)]
pub struct Money {
    mantissa: i128,
    scale: u32,
}

impl View for Money {
    /// The mantissa and the scale.
    type V = (int, nat);

    closed spec fn view(&self) -> (int, nat) {
        (self.mantissa as int, self.scale as nat)
    }
}

/// `a` and `b` denote the same number: `a.0 / 10^a.1 == b.0 / 10^b.1`.
pub open spec fn same_number(a: (int, nat), b: (int, nat)) -> bool {
    a.0 * pow10(b.1) == b.0 * pow10(a.1)
}

/// The exact sum of two decimals, written at the larger of the two scales.
pub open spec fn exact_sum(a: (int, nat), b: (int, nat)) -> (int, nat) {
    if a.1 <= b.1 {
        (a.0 * pow10((b.1 - a.1) as nat) + b.0, b.1)
    } else {
        (a.0 + b.0 * pow10((a.1 - b.1) as nat), a.1)
    }
}

/// The exact difference `a - b`, written at the larger of the two scales.
pub open spec fn exact_difference(a: (int, nat), b: (int, nat)) -> (int, nat) {
    exact_sum(a, (-b.0, b.1))
}

/// The exact product of two decimals.
pub open spec fn exact_product(a: (int, nat), b: (int, nat)) -> (int, nat) {
    (a.0 * b.0, a.1 + b.1)
}

/// What `Decimal::checked_mul` returns on two decimals.
pub uninterp spec fn decimal_product(a: Money, b: Money) -> Option<Money>;

/// What `Decimal::checked_add` returns on two decimals.
pub uninterp spec fn decimal_sum(a: Money, b: Money) -> Option<Money>;

/// What `Decimal::checked_sub` returns on two decimals.
pub uninterp spec fn decimal_difference(a: Money, b: Money) -> Option<Money>;

/// What `Decimal::checked_div` returns on two decimals.
pub uninterp spec fn decimal_quotient(a: Money, b: Money) -> Option<Money>;

/// What `<Decimal as FromStr>::from_str` returns on a text, when it succeeds.
pub uninterp spec fn decimal_parse(s: Seq<char>) -> Option<Money>;

/// `r` is what a checked operation may return when the exact result `e`
/// has parts that a decimal can hold: that very number, at no larger scale.
pub open spec fn exact_when_representable(r: Option<Money>, e: (int, nat)) -> bool {
    valid_parts(e.0, e.1) ==> (r matches Some(c) && same_number(c@, e) && c@.1 <= e.1)
}

/// What a product returns on a zero factor, and on a factor of one.
pub open spec fn product_identities(r: Option<Money>, a: (int, nat), b: (int, nat)) -> bool {
    &&& (a.0 == 0 || b.0 == 0) ==> (r matches Some(c) && c@ == (0int, 0nat))
    &&& (b == (1int, 0nat) && a.0 != 0) ==> (r matches Some(c) && c@ == a)
}

impl Money {
    /// The amount with these parts, as a value of specifications.
    pub closed spec fn from_parts(mantissa: int, scale: nat) -> Money {
        Money { mantissa: mantissa as i128, scale: scale as u32 }
    }

    /// Amounts with the same parts are the same amount.
    pub proof fn lemma_view_injective(a: Money, b: Money)
        requires
            a@ == b@,
        ensures
            a == b,
    {
    }

    /// An amount built from parts that a decimal can hold has those parts.
    pub proof fn lemma_from_parts(mantissa: int, scale: nat)
        requires
            valid_parts(mantissa, scale),
        ensures
            Money::from_parts(mantissa, scale)@ == (mantissa, scale),
    {
    }

    #[verifier::type_invariant]
    spec fn inv(self) -> bool {
        valid_parts(self.mantissa as int, self.scale as nat)
    }

    /// The amount `mantissa / 10^scale`.
    pub fn new(mantissa: i128, scale: u32) -> (r: Money)
        requires
            valid_parts(mantissa as int, scale as nat),
        ensures
            r@ == (mantissa as int, scale as nat),
            r == Money::from_parts(mantissa as int, scale as nat),
    {
        Money { mantissa, scale }
    }

    /// Zero, at scale 0.
    pub fn zero() -> (r: Money)
        ensures
            r@ == (0int, 0nat),
            r == Money::from_parts(0, 0),
    {
        Money { mantissa: 0, scale: 0 }
    }

    /// One, at scale 0.
    pub fn one() -> (r: Money)
        ensures
            r@ == (1int, 0nat),
            r == Money::from_parts(1, 0),
    {
        Money { mantissa: 1, scale: 0 }
    }

    /// A whole number.
    pub fn from_int(n: i64) -> (r: Money)
        ensures
            r@ == (n as int, 0nat),
            r == Money::from_parts(n as int, 0),
    {
        Money { mantissa: n as i128, scale: 0 }
    }

    pub fn mantissa(&self) -> (r: i128)
        ensures
            r as int == self@.0,
    {
        self.mantissa
    }

    pub fn scale(&self) -> (r: u32)
        ensures
            r as nat == self@.1,
    {
        self.scale
    }

    pub open spec fn is_positive_spec(self) -> bool {
        self@.0 > 0
    }

    pub open spec fn is_zero_spec(self) -> bool {
        self@.0 == 0
    }

    /// Whether the amount is greater than zero.
    pub fn is_positive(&self) -> (r: bool)
        ensures
            r == self.is_positive_spec(),
    {
        self.mantissa > 0
    }

    /// Whether the amount is zero, at whatever scale.
    pub fn is_zero(&self) -> (r: bool)
        ensures
            r == self.is_zero_spec(),
    {
        self.mantissa == 0
    }

    /// Whether two amounts denote the same number, whatever their scales.
    pub fn same_value(&self, other: &Money) -> (r: bool)
        ensures
            r == same_number(self@, other@),
    {
        proof {
            use_type_invariant(self);
            use_type_invariant(other);
        }
        decimal_equal(*self, *other)
    }

    /// The product `self * other`, or `None` where it overflows.
    pub fn checked_mul(&self, other: &Money) -> (r: Option<Money>)
        ensures
            r == decimal_product(*self, *other),
            exact_when_representable(r, exact_product(self@, other@)),
            product_identities(r, self@, other@),
            other@ == (1int, 0nat) ==> (r matches Some(c) && same_number(c@, self@)),
    {
        proof {
            use_type_invariant(self);
            use_type_invariant(other);
        }
        decimal_mul(*self, *other)
    }

    /// The sum `self + other`, or `None` where it overflows.
    pub fn checked_add(&self, other: &Money) -> (r: Option<Money>)
        ensures
            r == decimal_sum(*self, *other),
            exact_when_representable(r, exact_sum(self@, other@)),
    {
        proof {
            use_type_invariant(self);
            use_type_invariant(other);
        }
        decimal_add(*self, *other)
    }

    /// The difference `self - other`, or `None` where it overflows.
    pub fn checked_sub(&self, other: &Money) -> (r: Option<Money>)
        ensures
            r == decimal_difference(*self, *other),
            exact_when_representable(r, exact_difference(self@, other@)),
    {
        proof {
            use_type_invariant(self);
            use_type_invariant(other);
        }
        decimal_sub(*self, *other)
    }

    /// The quotient `self / other`, rounded by `rust_decimal` to the digits
    /// that it keeps; `None` where `other` is zero or the quotient overflows.
    pub fn checked_div(&self, other: &Money) -> (r: Option<Money>)
        ensures
            r == decimal_quotient(*self, *other),
            other.is_zero_spec() ==> r is None,
    {
        proof {
            use_type_invariant(self);
            use_type_invariant(other);
        }
        decimal_div(*self, *other)
    }

    /// Reads a decimal number written out as text (`"0.69300000"`).
    pub fn parse(text: &str) -> (r: Option<Money>)
        ensures
            r == decimal_parse(text@),
    {
        decimal_from_str(text)
    }
}

/// Relies on `Decimal::eq`, which compares the numbers that two decimals
/// denote, not their scales.
#[verifier::external_body]
fn decimal_equal(a: Money, b: Money) -> (r: bool)
    requires
        valid_parts(a@.0, a@.1),
        valid_parts(b@.0, b@.1),
    ensures
        r == same_number(a@, b@),
{
    Decimal::from_i128_with_scale(a.mantissa, a.scale) == Decimal::from_i128_with_scale(
        b.mantissa,
        b.scale,
    )
}

/// Relies on `Decimal::checked_mul`: it returns `None` only on overflow, and
/// the product is exact when it needs no more than 96 bits and 28 digits. A
/// zero factor gives `Decimal::ZERO`; a non-zero amount times one keeps its
/// mantissa and scale.
#[verifier::external_body]
fn decimal_mul(a: Money, b: Money) -> (r: Option<Money>)
    requires
        valid_parts(a@.0, a@.1),
        valid_parts(b@.0, b@.1),
    ensures
        r == decimal_product(a, b),
        exact_when_representable(r, exact_product(a@, b@)),
        product_identities(r, a@, b@),
{
    let x = Decimal::from_i128_with_scale(a.mantissa, a.scale);
    let y = Decimal::from_i128_with_scale(b.mantissa, b.scale);
    match x.checked_mul(y) {
        Some(d) => Some(Money { mantissa: d.mantissa(), scale: d.scale() }),
        None => None,
    }
}

/// Relies on `Decimal::checked_add`: it returns `None` only on overflow, and
/// the sum is exact when it fits in 96 bits at the larger scale.
#[verifier::external_body]
fn decimal_add(a: Money, b: Money) -> (r: Option<Money>)
    requires
        valid_parts(a@.0, a@.1),
        valid_parts(b@.0, b@.1),
    ensures
        r == decimal_sum(a, b),
        exact_when_representable(r, exact_sum(a@, b@)),
{
    let x = Decimal::from_i128_with_scale(a.mantissa, a.scale);
    let y = Decimal::from_i128_with_scale(b.mantissa, b.scale);
    match x.checked_add(y) {
        Some(d) => Some(Money { mantissa: d.mantissa(), scale: d.scale() }),
        None => None,
    }
}

/// Relies on `Decimal::checked_sub`: it returns `None` only on overflow, and
/// the difference is exact when it fits in 96 bits at the larger scale.
#[verifier::external_body]
fn decimal_sub(a: Money, b: Money) -> (r: Option<Money>)
    requires
        valid_parts(a@.0, a@.1),
        valid_parts(b@.0, b@.1),
    ensures
        r == decimal_difference(a, b),
        exact_when_representable(r, exact_difference(a@, b@)),
{
    let x = Decimal::from_i128_with_scale(a.mantissa, a.scale);
    let y = Decimal::from_i128_with_scale(b.mantissa, b.scale);
    match x.checked_sub(y) {
        Some(d) => Some(Money { mantissa: d.mantissa(), scale: d.scale() }),
        None => None,
    }
}

/// Relies on `Decimal::checked_div`: `None` when the divisor is zero or the
/// quotient overflows; otherwise the quotient rounded to the kept digits.
#[verifier::external_body]
fn decimal_div(a: Money, b: Money) -> (r: Option<Money>)
    requires
        valid_parts(a@.0, a@.1),
        valid_parts(b@.0, b@.1),
    ensures
        r == decimal_quotient(a, b),
        b@.0 == 0 ==> r is None,
{
    let x = Decimal::from_i128_with_scale(a.mantissa, a.scale);
    let y = Decimal::from_i128_with_scale(b.mantissa, b.scale);
    match x.checked_div(y) {
        Some(d) => Some(Money { mantissa: d.mantissa(), scale: d.scale() }),
        None => None,
    }
}

/// Relies on `<Decimal as FromStr>::from_str`, which reads a decimal number
/// from text and fails on anything else.
#[verifier::external_body]
fn decimal_from_str(text: &str) -> (r: Option<Money>)
    ensures
        r == decimal_parse(text@),
{
    match text.parse::<Decimal>() {
        Ok(d) => Some(Money { mantissa: d.mantissa(), scale: d.scale() }),
        Err(_) => None,
    }
}

impl PartialEq for Money {
    /// Two amounts are equal when they denote the same number.
    fn eq(&self, other: &Money) -> (r: bool) {
        self.same_value(other)
    }
}

impl vstd::std_specs::cmp::PartialEqSpecImpl for Money {
    open spec fn obeys_eq_spec() -> bool {
        true
    }

    open spec fn eq_spec(&self, other: &Money) -> bool {
        same_number(self@, other@)
    }
}

} // verus!
