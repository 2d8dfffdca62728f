use std::ops::{Add, Div, Mul, Neg, Sub};
use vstd::prelude::*;
use vstd::std_specs::convert::FromSpec;
use vstd::std_specs::ops::{AddSpec, DivSpec, MulSpec, NegSpec, SubSpec};

verus! {

/// A mathematical vector, e.g. a position or a velocity.
///
/// Every arithmetic operation works component by component; the operations
/// on a component are those of `T`.
#[derive(Copy, Clone, Debug, PartialEq, Eq)]
pub struct Vector2<T>(pub T, pub T);

impl<T: Add> Add for Vector2<T> {
    type Output = Vector2<T::Output>;

    fn add(self, rhs: Self) -> (r: Self::Output) {
        Vector2(self.0 + rhs.0, self.1 + rhs.1)
    }
}

impl<T: Add> vstd::std_specs::ops::AddSpecImpl for Vector2<T> {
    open spec fn obeys_add_spec() -> bool {
        T::obeys_add_spec()
    }

    open spec fn add_req(self, rhs: Self) -> bool {
        self.0.add_req(rhs.0) && self.1.add_req(rhs.1)
    }

    open spec fn add_spec(self, rhs: Self) -> Self::Output {
        Vector2(self.0.add_spec(rhs.0), self.1.add_spec(rhs.1))
    }
}

impl<T: Sub> Sub for Vector2<T> {
    type Output = Vector2<T::Output>;

    fn sub(self, rhs: Self) -> (r: Self::Output) {
        Vector2(self.0 - rhs.0, self.1 - rhs.1)
    }
}

impl<T: Sub> vstd::std_specs::ops::SubSpecImpl for Vector2<T> {
    open spec fn obeys_sub_spec() -> bool {
        T::obeys_sub_spec()
    }

    open spec fn sub_req(self, rhs: Self) -> bool {
        self.0.sub_req(rhs.0) && self.1.sub_req(rhs.1)
    }

    open spec fn sub_spec(self, rhs: Self) -> Self::Output {
        Vector2(self.0.sub_spec(rhs.0), self.1.sub_spec(rhs.1))
    }
}

impl<T: Mul + Copy> Mul<T> for Vector2<T> {
    type Output = Vector2<T::Output>;

    fn mul(self, rhs: T) -> (r: Self::Output) {
        Vector2(self.0 * rhs, self.1 * rhs)
    }
}

impl<T: Mul + Copy> vstd::std_specs::ops::MulSpecImpl<T> for Vector2<T> {
    open spec fn obeys_mul_spec() -> bool {
        T::obeys_mul_spec()
    }

    open spec fn mul_req(self, rhs: T) -> bool {
        self.0.mul_req(rhs) && self.1.mul_req(rhs)
    }

    open spec fn mul_spec(self, rhs: T) -> Self::Output {
        Vector2(self.0.mul_spec(rhs), self.1.mul_spec(rhs))
    }
}

impl<T: Div + Copy> Div<T> for Vector2<T> {
    type Output = Vector2<T::Output>;

    fn div(self, rhs: T) -> (r: Self::Output) {
        Vector2(self.0 / rhs, self.1 / rhs)
    }
}

impl<T: Div + Copy> vstd::std_specs::ops::DivSpecImpl<T> for Vector2<T> {
    open spec fn obeys_div_spec() -> bool {
        T::obeys_div_spec()
    }

    open spec fn div_req(self, rhs: T) -> bool {
        self.0.div_req(rhs) && self.1.div_req(rhs)
    }

    open spec fn div_spec(self, rhs: T) -> Self::Output {
        Vector2(self.0.div_spec(rhs), self.1.div_spec(rhs))
    }
}

impl<T: Neg> Neg for Vector2<T> {
    type Output = Vector2<T::Output>;

    fn neg(self) -> (r: Self::Output) {
        Vector2(self.0.neg(), self.1.neg())
    }
}

impl<T: Neg> vstd::std_specs::ops::NegSpecImpl for Vector2<T> {
    open spec fn obeys_neg_spec() -> bool {
        T::obeys_neg_spec()
    }

    open spec fn neg_req(self) -> bool {
        self.0.neg_req() && self.1.neg_req()
    }

    open spec fn neg_spec(self) -> Self::Output {
        Vector2(self.0.neg_spec(), self.1.neg_spec())
    }
}

impl<T> Vector2<T> {
    /// Returns the dot product of two vectors.
    pub fn dot(self, other: Self) -> (r: <<T as Mul>::Output as Add>::Output) where
        T: Mul,
        <T as Mul>::Output: Add,
        requires
            self.0.mul_req(other.0),
            self.1.mul_req(other.1),
            forall|p: <T as Mul>::Output, q: <T as Mul>::Output|
                call_ensures(T::mul, (self.0, other.0), p) && call_ensures(T::mul, (self.1, other.1), q)
                    ==> #[trigger] p.add_req(q),
        ensures
            T::obeys_mul_spec() && <T as Mul>::Output::obeys_add_spec() ==> r == self.0.mul_spec(
                other.0,
            ).add_spec(self.1.mul_spec(other.1)),
    {
        self.0 * other.0 + self.1 * other.1
    }
}

impl<T> From<(T, T)> for Vector2<T> {
    fn from(tuple: (T, T)) -> (r: Self) {
        Vector2(tuple.0, tuple.1)
    }
}

impl<T> vstd::std_specs::convert::FromSpecImpl<(T, T)> for Vector2<T> {
    open spec fn obeys_from_spec() -> bool {
        true
    }

    open spec fn from_spec(tuple: (T, T)) -> Self {
        Vector2(tuple.0, tuple.1)
    }
}

impl<T> From<Vector2<T>> for (T, T) {
    fn from(v: Vector2<T>) -> (r: Self) {
        (v.0, v.1)
    }
}

impl<T> vstd::std_specs::convert::FromSpecImpl<Vector2<T>> for (T, T) {
    open spec fn obeys_from_spec() -> bool {
        true
    }

    open spec fn from_spec(v: Vector2<T>) -> Self {
        (v.0, v.1)
    }
}

impl<T: Copy> From<[T; 2]> for Vector2<T> {
    fn from(array: [T; 2]) -> (r: Self) {
        Vector2(array[0], array[1])
    }
}

impl<T: Copy> vstd::std_specs::convert::FromSpecImpl<[T; 2]> for Vector2<T> {
    open spec fn obeys_from_spec() -> bool {
        true
    }

    open spec fn from_spec(array: [T; 2]) -> Self {
        Vector2(array@[0], array@[1])
    }
}

impl<T> From<Vector2<T>> for [T; 2] {
    fn from(v: Vector2<T>) -> (r: Self) {
        [v.0, v.1]
    }
}

impl<T> vstd::std_specs::convert::FromSpecImpl<Vector2<T>> for [T; 2] {
    open spec fn obeys_from_spec() -> bool {
        true
    }

    open spec fn from_spec(v: Vector2<T>) -> Self {
        [v.0, v.1]
    }
}

/// With exact integer components, adding and then subtracting the same
/// vector gives back the original.
pub proof fn lemma_add_sub_cancel(a: Vector2<i64>, b: Vector2<i64>)
    requires
        a.add_req(b),
    ensures
        a.add_spec(b).sub_req(b),
        a.add_spec(b).sub_spec(b) == a,
{
}

/// A vector minus itself is the zero vector.
pub proof fn lemma_sub_self(a: Vector2<i64>)
    ensures
        a.sub_req(a),
        a.sub_spec(a) == Vector2(0i64, 0i64),
{
}

/// With exact integer components, scaling by a non-zero `k` and then
/// dividing by `k` gives back the original.
pub proof fn lemma_mul_div_cancel(a: Vector2<i64>, k: i64)
    requires
        k != 0,
        a.mul_req(k),
    ensures
        a.mul_spec(k).div_req(k),
        a.mul_spec(k).div_spec(k) == a,
{
    lemma_exact_quotient(a.0 as int, k as int);
    lemma_exact_quotient(a.1 as int, k as int);
}

proof fn lemma_exact_quotient(x: int, k: int)
    requires
        k != 0,
    ensures
        (x * k) / k == x,
        (-(x * k)) / k == -x,
{
    assert((x * k) / k == x) by (nonlinear_arith)
        requires
            k != 0,
    ;
    assert(((-x) * k) / k == -x) by (nonlinear_arith)
        requires
            k != 0,
    ;
    assert(-(x * k) == (-x) * k) by (nonlinear_arith);
}

/// Building a vector from a pair and turning it back into a pair gives the
/// same pair; likewise for a two-element array.
pub proof fn lemma_conversion_round_trip<T: Copy>(t: (T, T), a: [T; 2])
    ensures
        <(T, T) as FromSpec<Vector2<T>>>::from_spec(<Vector2<T> as FromSpec<(T, T)>>::from_spec(t)) == t,
        <[T; 2] as FromSpec<Vector2<T>>>::from_spec(<Vector2<T> as FromSpec<[T; 2]>>::from_spec(a)) == a,
{
    broadcast use vstd::array::group_array_axioms;

    let back = <[T; 2] as FromSpec<Vector2<T>>>::from_spec(<Vector2<T> as FromSpec<[T; 2]>>::from_spec(a));
    assert(back@ =~= a@);
}

/// Operations that need the elementary functions of a floating-point `T`.
///
/// Their results come from `num_traits::Float` on a generic `T`, whose
/// values have no name here, so these carry no contract beyond freedom from
/// panics. Every arithmetic step goes through the float type itself.
impl<T: num_traits::Float> Vector2<T> {
    /// Creates a unit vector pointing in `direction` (radians,
    /// counter-clockwise from the positive x axis): `(cos, sin)`.
    pub fn unit_vector(direction: T) -> Self {
        let (y, x) = sin_cos(direction);
        Vector2(x, y)
    }

    /// Returns the vector scaled to length one. A zero vector gives `NaN`
    /// components.
    pub fn normalise(self) -> Self {
        let l = self.length();
        Vector2(quotient(self.0, l), quotient(self.1, l))
    }

    /// Returns the magnitude, or length, of the vector.
    pub fn length(self) -> T {
        hypot(self.0, self.1)
    }

    /// Returns the direction the vector points in: the angle in radians
    /// from the positive x axis, counter-clockwise, in `[-pi, pi]`.
    pub fn direction(self) -> T {
        atan2(self.1, self.0)
    }

    /// Returns the direction from this vector towards `other`.
    pub fn direction_to(self, other: Self) -> T {
        Vector2(difference(other.0, self.0), difference(other.1, self.1)).direction()
    }

    /// Returns the distance between this vector and `other`.
    pub fn distance_to(self, other: Self) -> T {
        Vector2(difference(other.0, self.0), difference(other.1, self.1)).length()
    }

    /// Returns `true` if either component is `NaN`.
    pub fn is_nan(&self) -> bool {
        is_nan(self.0) || is_nan(self.1)
    }

    /// Returns `true` if either component is positive or negative infinity.
    pub fn is_infinite(&self) -> bool {
        is_infinite(self.0) || is_infinite(self.1)
    }

    /// Returns `true` if either component is neither infinite nor `NaN`.
    pub fn is_finite(&self) -> bool {
        is_finite(self.0) || is_finite(self.1)
    }

    /// Returns `true` if either component is neither zero, infinite,
    /// subnormal nor `NaN`.
    pub fn is_normal(&self) -> bool {
        is_normal(self.0) || is_normal(self.1)
    }
}

/// Relies on the subtraction that num_traits::Float requires of `T`
/// (through `Num`'s `NumOps`).
#[verifier::external_body]
fn difference<T: num_traits::Float>(x: T, y: T) -> T {
    x - y
}

/// Relies on the division that num_traits::Float requires of `T` (through
/// `Num`'s `NumOps`).
#[verifier::external_body]
fn quotient<T: num_traits::Float>(x: T, y: T) -> T {
    x / y
}

/// Relies on the negation that num_traits::Float requires of `T`
/// (`Neg<Output = Self>`).
#[verifier::external_body]
pub(crate) fn neg<T: num_traits::Float>(x: T) -> T {
    -x
}

/// Relies on num_traits::Zero::zero, the additive identity.
#[verifier::external_body]
pub(crate) fn zero<T: num_traits::Float>() -> T {
    T::zero()
}

/// Relies on num_traits::One::one, the multiplicative identity.
#[verifier::external_body]
pub(crate) fn one<T: num_traits::Float>() -> T {
    T::one()
}

/// Relies on num_traits::Float::sin_cos: `(sin x, cos x)`.
#[verifier::external_body]
pub(crate) fn sin_cos<T: num_traits::Float>(x: T) -> (T, T) {
    x.sin_cos()
}

/// Relies on num_traits::Float::hypot: the length of the hypotenuse.
#[verifier::external_body]
fn hypot<T: num_traits::Float>(x: T, y: T) -> T {
    x.hypot(y)
}

/// Relies on num_traits::Float::atan2: the four-quadrant arc tangent of `y / x`.
#[verifier::external_body]
fn atan2<T: num_traits::Float>(y: T, x: T) -> T {
    y.atan2(x)
}

/// Relies on num_traits::Float::is_nan.
#[verifier::external_body]
fn is_nan<T: num_traits::Float>(x: T) -> bool {
    x.is_nan()
}

/// Relies on num_traits::Float::is_infinite.
#[verifier::external_body]
fn is_infinite<T: num_traits::Float>(x: T) -> bool {
    x.is_infinite()
}

/// Relies on num_traits::Float::is_finite.
#[verifier::external_body]
fn is_finite<T: num_traits::Float>(x: T) -> bool {
    x.is_finite()
}

/// Relies on num_traits::Float::is_normal.
#[verifier::external_body]
fn is_normal<T: num_traits::Float>(x: T) -> bool {
    x.is_normal()
}

} // verus!
