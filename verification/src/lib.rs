//! Unsigned normalized fixed-point numbers.
//!
//! An [`Unorm`] stores a real number in the closed interval [0, 1] as a
//! 32-bit unsigned integer `repr`, interpreted as the value
//! `repr / MAX32` where `MAX32 = 2^32 - 1`.
//!
//! Overflow policy: addition and subtraction act on the raw
//! representations with checked arithmetic. An operand pair whose sum
//! would pass `MAX32`, or whose difference would fall below zero, is
//! ruled out by precondition, uniformly across the operators and their
//! compound-assignment forms, so neither wraparound nor saturation can
//! ever happen. Multiplication needs no such bound: the product of two
//! values in [0, 1] is again in [0, 1].

use vstd::prelude::*;

verus! {

/// The divisor mapping between the integer representation and the real
/// value: `2^32 - 1`, the largest 32-bit unsigned integer.
pub const MAX32: u32 = 0xFFFF_FFFF;

/// Unsigned normalized number in the range `0 <= x <= 1`, represented as an
/// unsigned 32-bit integer `repr` standing for the real value
/// `repr / MAX32`.
#[derive(Clone, Copy, PartialEq, Eq, Structural, Hash, PartialOrd, Ord, Debug)]
pub struct Unorm {
    repr: u32,
}

impl View for Unorm {
    type V = nat;

    /// The mathematical model of an `Unorm` is its raw representation as a
    /// natural number; the value represented is `self@ / MAX32`.
    closed spec fn view(&self) -> nat {
        self.repr as nat
    }
}

/// The representation built from a denominator `denom`: the raw integer
/// `MAX32 / denom`, truncating division, standing for `1 / denom`.
pub open spec fn denominator_repr(denom: u32) -> nat
    recommends
        denom != 0,
{
    (MAX32 as nat) / (denom as nat)
}

/// The representation built from a rational `nominator / denom`: the raw
/// integer `(nominator * MAX32) / denom`, truncating division.
pub open spec fn rational_repr(nominator: u32, denom: u32) -> nat
    recommends
        denom != 0,
{
    ((nominator as nat) * (MAX32 as nat)) / (denom as nat)
}

/// The representation of the product of two values with representations
/// `a` and `b`: both are widened, multiplied, and scaled back down by
/// `MAX32` with truncating division, so the result is the floor of the
/// true product's representation.
pub open spec fn product_repr(a: nat, b: nat) -> nat {
    (a * b) / (MAX32 as nat)
}

/// The product of two representations no larger than `MAX32` stays within
/// 64 bits, and scaled back down it fits in 32 again.
proof fn lemma_product_repr_fits(a: nat, b: nat)
    by (nonlinear_arith)
    requires
        a <= MAX32 as nat,
        b <= MAX32 as nat,
    ensures
        a * b <= (MAX32 as nat) * (MAX32 as nat),
        product_repr(a, b) <= MAX32 as nat,
{
}

/// For `nominator <= denom`, the rational representation never exceeds
/// `MAX32`, so narrowing it to 32 bits loses nothing.
proof fn lemma_rational_repr_fits(nominator: u32, denom: u32)
    by (nonlinear_arith)
    requires
        denom != 0,
        nominator <= denom,
    ensures
        rational_repr(nominator, denom) <= MAX32 as nat,
{
}

impl Unorm {
    /// Creates an `Unorm` from a `u32`. The returned value is binary
    /// identical to the passed `u32`, but is interpreted to be
    /// `repr / MAX32`.
    pub fn from_u32_repr(repr: u32) -> (r: Unorm)
        ensures
            r@ == repr as nat,
    {
        Unorm { repr }
    }

    /// Creates an `Unorm` interpreted to be `1 / denom`. The division
    /// truncates toward zero, so for a `denom` that does not evenly divide
    /// `MAX32` the result is the largest representable value below the true
    /// reciprocal.
    pub fn from_denominator(denom: u32) -> (r: Unorm)
        requires
            denom != 0,
        ensures
            r@ == denominator_repr(denom),
    {
        Unorm { repr: MAX32 / denom }
    }

    /// Creates an `Unorm` interpreted to be `nominator / denom`, computed
    /// as `(nominator * MAX32) / denom` in 64-bit arithmetic, truncating.
    /// The caller must keep `nominator <= denom`, so that the value lies in
    /// [0, 1], and `denom` nonzero.
    pub fn from_rational(nominator: u32, denom: u32) -> (r: Unorm)
        requires
            denom != 0,
            nominator <= denom,
        ensures
            r@ == rational_repr(nominator, denom),
    {
        proof {
            lemma_rational_repr_fits(nominator, denom);
        }
        let wide: u64 = (nominator as u64 * MAX32 as u64) / (denom as u64);
        Unorm { repr: wide as u32 }
    }

    /// `0`, the smallest number representable by `Unorm`; its
    /// representation is `0`.
    pub fn zero() -> (r: Unorm)
        ensures
            r@ == 0,
    {
        Unorm { repr: 0 }
    }

    /// `1`, the largest number representable by `Unorm`; its
    /// representation is `MAX32`.
    pub fn one() -> (r: Unorm)
        ensures
            r@ == MAX32 as nat,
    {
        Unorm { repr: MAX32 }
    }

    /// `1 / MAX32`, the smallest number different from zero representable
    /// by `Unorm`: one unit in the last place, with representation `1`.
    pub fn epsilon() -> (r: Unorm)
        ensures
            r@ == 1,
    {
        Unorm { repr: 1 }
    }

    /// The largest number representable by `Unorm`; the same value as
    /// [`Unorm::one`].
    pub fn max_value() -> (r: Unorm)
        ensures
            r@ == MAX32 as nat,
    {
        Unorm::one()
    }

    /// The smallest number representable by `Unorm`; the same value as
    /// [`Unorm::zero`].
    pub fn min_value() -> (r: Unorm)
        ensures
            r@ == 0,
    {
        Unorm::zero()
    }

    /// Adds `other` into `self`, under the same checked-arithmetic policy
    /// as `+`: the representations' sum must not pass `MAX32`.
    pub fn add_assign(&mut self, other: Unorm)
        requires
            old(self)@ + other@ <= MAX32 as nat,
        ensures
            final(self)@ == old(self)@ + other@,
    {
        self.repr = self.repr + other.repr;
    }

    /// Subtracts `other` from `self`, under the same checked-arithmetic
    /// policy as `-`: `other` must not be the larger value.
    pub fn sub_assign(&mut self, other: Unorm)
        requires
            other@ <= old(self)@,
        ensures
            final(self)@ == old(self)@ - other@,
    {
        self.repr = self.repr - other.repr;
    }

    /// Multiplies `self` by `other`, with the same truncating normalized
    /// product rule as `*`.
    pub fn mul_assign(&mut self, other: Unorm)
        ensures
            final(self)@ == product_repr(old(self)@, other@),
    {
        *self = *self * other;
    }

    /// Reads back the raw 32-bit representation, binary identical to what
    /// [`Unorm::from_u32_repr`] was given.
    pub fn to_u32_repr(self) -> (repr: u32)
        ensures
            repr as nat == self@,
    {
        self.repr
    }
}

/// Addition acts directly on the representations, `a.repr + b.repr`. The
/// crate's overflow policy is checked arithmetic: operands whose
/// representations sum past `MAX32` — that is, whose values sum past one —
/// are ruled out by precondition, so a verified caller can never wrap.
impl core::ops::Add for Unorm {
    type Output = Unorm;

    fn add(self, other: Unorm) -> (r: Unorm)
        ensures
            r@ == self@ + other@,
    {
        Unorm { repr: self.repr + other.repr }
    }
}

impl vstd::std_specs::ops::AddSpecImpl for Unorm {
    open spec fn obeys_add_spec() -> bool {
        true
    }

    open spec fn add_req(self, other: Unorm) -> bool {
        self@ + other@ <= MAX32 as nat
    }

    closed spec fn add_spec(self, other: Unorm) -> Unorm {
        Unorm { repr: (self@ + other@) as u32 }
    }
}

/// Addition with a reference as right-hand operand: same result as the
/// value form.
impl<'a> core::ops::Add<&'a Unorm> for Unorm {
    type Output = Unorm;

    fn add(self, other: &'a Unorm) -> (r: Unorm)
        ensures
            r@ == self@ + other@,
    {
        Unorm { repr: self.repr + other.repr }
    }
}

impl<'a> vstd::std_specs::ops::AddSpecImpl<&'a Unorm> for Unorm {
    open spec fn obeys_add_spec() -> bool {
        true
    }

    open spec fn add_req(self, other: &'a Unorm) -> bool {
        self@ + other@ <= MAX32 as nat
    }

    closed spec fn add_spec(self, other: &'a Unorm) -> Unorm {
        Unorm { repr: (self@ + other@) as u32 }
    }
}

/// Subtraction acts directly on the representations, `a.repr - b.repr`.
/// As with addition the policy is checked arithmetic: a subtrahend larger
/// than the minuend is ruled out by precondition, so a verified caller can
/// never wrap below zero.
impl core::ops::Sub for Unorm {
    type Output = Unorm;

    fn sub(self, other: Unorm) -> (r: Unorm)
        ensures
            r@ == self@ - other@,
    {
        Unorm { repr: self.repr - other.repr }
    }
}

impl vstd::std_specs::ops::SubSpecImpl for Unorm {
    open spec fn obeys_sub_spec() -> bool {
        true
    }

    open spec fn sub_req(self, other: Unorm) -> bool {
        other@ <= self@
    }

    closed spec fn sub_spec(self, other: Unorm) -> Unorm {
        Unorm { repr: (self@ - other@) as u32 }
    }
}

/// Subtraction with a reference as right-hand operand: same result as the
/// value form.
impl<'a> core::ops::Sub<&'a Unorm> for Unorm {
    type Output = Unorm;

    fn sub(self, other: &'a Unorm) -> (r: Unorm)
        ensures
            r@ == self@ - other@,
    {
        Unorm { repr: self.repr - other.repr }
    }
}

impl<'a> vstd::std_specs::ops::SubSpecImpl<&'a Unorm> for Unorm {
    open spec fn obeys_sub_spec() -> bool {
        true
    }

    open spec fn sub_req(self, other: &'a Unorm) -> bool {
        other@ <= self@
    }

    closed spec fn sub_spec(self, other: &'a Unorm) -> Unorm {
        Unorm { repr: (self@ - other@) as u32 }
    }
}

/// Multiplication follows the normalized product rule: both
/// representations are widened to 64 bits, multiplied, and divided by
/// `MAX32` with truncating division, which keeps the result's value the
/// floor of the true product. No precondition is needed: the product of
/// two values in [0, 1] is again in [0, 1]. Because each factor and the
/// product truncate separately, multiplying two rationals is not promised
/// to land bit-for-bit on the directly built rational product — only
/// within one unit in the last place; it does land exactly when the
/// denominators divide `MAX32` evenly.
impl core::ops::Mul for Unorm {
    type Output = Unorm;

    fn mul(self, other: Unorm) -> (r: Unorm)
        ensures
            r@ == product_repr(self@, other@),
    {
        proof {
            lemma_product_repr_fits(self@, other@);
        }
        let wide: u64 = (self.repr as u64 * other.repr as u64) / (MAX32 as u64);
        Unorm { repr: wide as u32 }
    }
}

impl vstd::std_specs::ops::MulSpecImpl for Unorm {
    open spec fn obeys_mul_spec() -> bool {
        true
    }

    open spec fn mul_req(self, other: Unorm) -> bool {
        true
    }

    closed spec fn mul_spec(self, other: Unorm) -> Unorm {
        Unorm { repr: product_repr(self@, other@) as u32 }
    }
}

/// Multiplication with a reference as right-hand operand: same result as
/// the value form.
impl<'a> core::ops::Mul<&'a Unorm> for Unorm {
    type Output = Unorm;

    fn mul(self, other: &'a Unorm) -> (r: Unorm)
        ensures
            r@ == product_repr(self@, other@),
    {
        self * (*other)
    }
}

impl<'a> vstd::std_specs::ops::MulSpecImpl<&'a Unorm> for Unorm {
    open spec fn obeys_mul_spec() -> bool {
        true
    }

    open spec fn mul_req(self, other: &'a Unorm) -> bool {
        true
    }

    closed spec fn mul_spec(self, other: &'a Unorm) -> Unorm {
        Unorm { repr: product_repr(self@, other@) as u32 }
    }
}

/// Two values with the same representation are the same value.
pub proof fn lemma_repr_injective(a: Unorm, b: Unorm)
    requires
        a@ == b@,
    ensures
        a == b,
{
}

/// Every representation lies between `0` and `MAX32`: an `Unorm` always
/// stands for a value in [0, 1].
pub proof fn lemma_repr_bounded(u: Unorm)
    ensures
        u@ <= MAX32 as nat,
{
}

/// For every nonzero denominator `d`, building `1 / d` gives the same
/// value as wrapping the truncating quotient `MAX32 / d` raw: a value
/// returned by `from_denominator(d)` equals one returned by
/// `from_u32_repr(MAX32 / d)`.
pub proof fn lemma_from_denominator_agrees(a: Unorm, b: Unorm, denom: u32)
    requires
        denom != 0,
        a@ == denominator_repr(denom),
        b@ == (MAX32 / denom) as nat,
    ensures
        a == b,
{
    lemma_repr_injective(a, b);
}

/// The value built from `nominator / denom` is monotonically
/// non-decreasing in the nominator: raising the nominator, within the
/// denominator, never lowers the result.
pub proof fn lemma_rational_monotonic_nominator(n1: u32, n2: u32, denom: u32)
    by (nonlinear_arith)
    requires
        denom != 0,
        n1 <= n2,
        n2 <= denom,
    ensures
        rational_repr(n1, denom) <= rational_repr(n2, denom),
{
}

/// The value built from `nominator / denom` is monotonically
/// non-increasing in the denominator: raising the denominator, keeping
/// the nominator within both, never raises the result.
pub proof fn lemma_rational_monotonic_denominator(nominator: u32, d1: u32, d2: u32)
    by (nonlinear_arith)
    requires
        d1 != 0,
        d1 <= d2,
        nominator <= d1,
    ensures
        rational_repr(nominator, d2) <= rational_repr(nominator, d1),
{
}

/// One times one is one: the product of two full representations, scaled
/// back down by `MAX32`, is the full representation again.
pub proof fn lemma_mul_one_one()
    by (nonlinear_arith)
    ensures
        product_repr(MAX32 as nat, MAX32 as nat) == MAX32 as nat,
{
}

/// Zero times anything is zero, whatever the other representation.
pub proof fn lemma_mul_zero(b: nat)
    ensures
        product_repr(0, b) == 0,
{
}

/// Multiplication is commutative: the operands' representations enter the
/// product symmetrically.
pub proof fn lemma_mul_commutative(a: Unorm, b: Unorm)
    by (nonlinear_arith)
    ensures
        product_repr(a@, b@) == product_repr(b@, a@),
{
}

/// The boundary values are unique: every value other than zero is at
/// least `EPSILON` (representation `1`), so `EPSILON` is the one smallest
/// value greater than `ZERO`; and every value other than one has a
/// representation of at most `MAX32 - 1`, so `ONE - EPSILON` is the one
/// largest value smaller than `ONE`.
pub proof fn lemma_unit_boundaries(u: Unorm)
    ensures
        u@ != 0 ==> 1 <= u@,
        u@ != MAX32 as nat ==> u@ <= MAX32 as nat - 1,
{
    lemma_repr_bounded(u);
}

} // verus!
