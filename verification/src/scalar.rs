use vstd::prelude::*;

verus! {

/// The numbers that matrices hold.
///
/// Every operation is a total function of its arguments: each executable
/// method returns exactly what its `_spec` companion names. The library
/// assumes nothing else about the numbers, so every contract that it states
/// is a statement about which operations were applied to which entries, in
/// which order. An implementation for machine floating point gives each
/// `_spec` function the body of the method that it names, and counts every
/// not-a-number as one and the same number.
pub trait Scalar: Copy + Sized {
    /// The number that stands for the integer `n`.
    spec fn from_int_spec(n: u32) -> Self;

    spec fn add_spec(self, rhs: Self) -> Self;

    spec fn sub_spec(self, rhs: Self) -> Self;

    spec fn mul_spec(self, rhs: Self) -> Self;

    spec fn div_spec(self, rhs: Self) -> Self;

    spec fn neg_spec(self) -> Self;

    spec fn abs_spec(self) -> Self;

    spec fn sqrt_spec(self) -> Self;

    /// The nearest whole number.
    spec fn round_spec(self) -> Self;

    /// Strictly less than. Nothing is assumed of it: it need not be total
    /// (a not-a-number is less than nothing and nothing is less than it).
    spec fn less_spec(self, rhs: Self) -> bool;

    /// Not less than. Like `less_spec` it need not be total, and it need
    /// not be the opposite of `less_spec`.
    spec fn at_least_spec(self, rhs: Self) -> bool;

    /// The whole part of the number as an unsigned integer: what lies
    /// below zero gives zero, what lies above the greatest integer gives
    /// that integer.
    spec fn to_int_spec(self) -> u32;

    fn from_int(n: u32) -> (r: Self)
        ensures
            r == Self::from_int_spec(n),
    ;

    fn add(self, rhs: Self) -> (r: Self)
        ensures
            r == self.add_spec(rhs),
    ;

    fn sub(self, rhs: Self) -> (r: Self)
        ensures
            r == self.sub_spec(rhs),
    ;

    fn mul(self, rhs: Self) -> (r: Self)
        ensures
            r == self.mul_spec(rhs),
    ;

    /// Division never fails: where the divisor is zero the result is
    /// whatever the number type gives (an infinity or a not-a-number for
    /// floating point).
    fn div(self, rhs: Self) -> (r: Self)
        ensures
            r == self.div_spec(rhs),
    ;

    fn neg(self) -> (r: Self)
        ensures
            r == self.neg_spec(),
    ;

    fn abs(self) -> (r: Self)
        ensures
            r == self.abs_spec(),
    ;

    fn sqrt(self) -> (r: Self)
        ensures
            r == self.sqrt_spec(),
    ;

    fn round(self) -> (r: Self)
        ensures
            r == self.round_spec(),
    ;

    fn less(self, rhs: Self) -> (r: bool)
        ensures
            r == self.less_spec(rhs),
    ;

    fn at_least(self, rhs: Self) -> (r: bool)
        ensures
            r == self.at_least_spec(rhs),
    ;

    fn to_int(self) -> (r: u32)
        ensures
            r == self.to_int_spec(),
    ;
}

/// The additive unit of `T`.
pub open spec fn zero<T: Scalar>() -> T {
    T::from_int_spec(0)
}

/// The multiplicative unit of `T`.
pub open spec fn one<T: Scalar>() -> T {
    T::from_int_spec(1)
}

/// Addition gives the same whichever operand comes first.
pub open spec fn add_commutes<T: Scalar>() -> bool {
    forall|a: T, b: T| #[trigger] a.add_spec(b) == b.add_spec(a)
}

/// A sum of three gives the same however it is bracketed.
pub open spec fn add_associates<T: Scalar>() -> bool {
    forall|a: T, b: T, c: T| #[trigger] a.add_spec(b).add_spec(c) == a.add_spec(b.add_spec(c))
}

/// Adding zero, on either side, changes nothing.
pub open spec fn zero_is_neutral<T: Scalar>() -> bool {
    &&& forall|a: T| #[trigger] a.add_spec(zero::<T>()) == a
    &&& forall|a: T| #[trigger] zero::<T>().add_spec(a) == a
}

/// A number plus its negation is zero.
pub open spec fn neg_cancels<T: Scalar>() -> bool {
    forall|a: T| #[trigger] a.add_spec(a.neg_spec()) == zero::<T>()
}

/// Multiplication gives the same whichever operand comes first.
pub open spec fn mul_commutes<T: Scalar>() -> bool {
    forall|a: T, b: T| #[trigger] a.mul_spec(b) == b.mul_spec(a)
}

/// A product of three gives the same however it is bracketed.
pub open spec fn mul_associates<T: Scalar>() -> bool {
    forall|a: T, b: T, c: T| #[trigger] a.mul_spec(b).mul_spec(c) == a.mul_spec(b.mul_spec(c))
}

/// Multiplying by one, on either side, changes nothing.
pub open spec fn one_is_neutral<T: Scalar>() -> bool {
    &&& forall|a: T| #[trigger] a.mul_spec(one::<T>()) == a
    &&& forall|a: T| #[trigger] one::<T>().mul_spec(a) == a
}

/// Multiplying by zero, on either side, gives zero.
pub open spec fn zero_annihilates<T: Scalar>() -> bool {
    &&& forall|a: T| #[trigger] a.mul_spec(zero::<T>()) == zero::<T>()
    &&& forall|a: T| #[trigger] zero::<T>().mul_spec(a) == zero::<T>()
}

/// A product with a sum is the sum of the products.
pub open spec fn mul_distributes<T: Scalar>() -> bool {
    forall|a: T, b: T, c: T|
        #[trigger] a.mul_spec(b.add_spec(c)) == a.mul_spec(b).add_spec(a.mul_spec(c))
}

/// The order is strict: nothing is less than itself, and what is less than
/// something less than a third is less than the third.
pub open spec fn less_is_an_order<T: Scalar>() -> bool {
    &&& forall|a: T| !#[trigger] a.less_spec(a)
    &&& forall|a: T, b: T, c: T| #[trigger]
        a.less_spec(b) && #[trigger] b.less_spec(c) ==> a.less_spec(c)
}

/// Numbers with the circular functions.
///
/// A circular function may return a different approximation on each call,
/// so its result has no name. What is known of a result is the relation
/// that the number type states for it: `x.is_sine(r)` says that `r` is a
/// value that the sine of `x` can come out as, and so for the cosine and
/// the tangent. The constant `pi` is one number.
pub trait Angle: Scalar {
    /// `r` is a value that the sine of `self` can come out as.
    spec fn is_sine(self, r: Self) -> bool;

    /// `r` is a value that the cosine of `self` can come out as.
    spec fn is_cosine(self, r: Self) -> bool;

    /// `r` is a value that the tangent of `self` can come out as.
    spec fn is_tangent(self, r: Self) -> bool;

    /// The number that stands for the ratio of a circle's circumference to
    /// its diameter.
    spec fn pi_spec() -> Self;

    fn sin(self) -> (r: Self)
        ensures
            self.is_sine(r),
    ;

    fn cos(self) -> (r: Self)
        ensures
            self.is_cosine(r),
    ;

    fn tan(self) -> (r: Self)
        ensures
            self.is_tangent(r),
    ;

    fn pi() -> (r: Self)
        ensures
            r == Self::pi_spec(),
    ;
}

/// A quarter turn, in radians: half of pi.
pub open spec fn quarter_turn<T: Angle>() -> T {
    T::pi_spec().div_spec(T::from_int_spec(2))
}

} // verus!
