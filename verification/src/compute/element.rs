use vstd::prelude::*;

verus! {

/// The arithmetic a buffer element must offer: a zero, a one, a minus one,
/// a sum and a product.
///
/// The engine asks nothing else of its elements. In particular it assumes no
/// algebraic law: sums are taken in the order the operations state, so an
/// element type whose addition does not associate gives the results of
/// exactly that order.
///
/// Every operation comes twice: as the function that computes it, and as
/// the value that contracts speak of. An implementation gives both the same
/// meaning.
pub trait Element: Copy + Send + Sync + 'static {
    /// The value of [`Element::zero`].
    spec fn zero_value() -> Self;

    /// The value of [`Element::one`].
    spec fn one_value() -> Self;

    /// The value of [`Element::minus_one`].
    spec fn minus_one_value() -> Self;

    /// The value of [`Element::plus`].
    spec fn sum(self, rhs: Self) -> Self;

    /// The value of [`Element::times`].
    spec fn product(self, rhs: Self) -> Self;

    /// The additive identity, with which buffers are filled and sums start.
    fn zero() -> (r: Self)
        ensures
            r == Self::zero_value(),
    ;

    /// The multiplicative identity.
    fn one() -> (r: Self)
        ensures
            r == Self::one_value(),
    ;

    /// The factor that negates: minus the multiplicative identity.
    fn minus_one() -> (r: Self)
        ensures
            r == Self::minus_one_value(),
    ;

    /// `self + rhs`.
    fn plus(self, rhs: Self) -> (r: Self)
        ensures
            r == self.sum(rhs),
    ;

    /// `self * rhs`.
    fn times(self, rhs: Self) -> (r: Self)
        ensures
            r == self.product(rhs),
    ;
}

/// 32-bit integers, with arithmetic that wraps around.
impl Element for i32 {
    open spec fn zero_value() -> i32 {
        0i32
    }

    open spec fn one_value() -> i32 {
        1i32
    }

    open spec fn minus_one_value() -> i32 {
        -1i32
    }

    open spec fn sum(self, rhs: i32) -> i32 {
        self.wrapping_add(rhs)
    }

    open spec fn product(self, rhs: i32) -> i32 {
        self.wrapping_mul(rhs)
    }

    fn zero() -> (r: i32) {
        0
    }

    fn one() -> (r: i32) {
        1
    }

    fn minus_one() -> (r: i32) {
        -1
    }

    fn plus(self, rhs: i32) -> (r: i32) {
        self.wrapping_add(rhs)
    }

    fn times(self, rhs: i32) -> (r: i32) {
        self.wrapping_mul(rhs)
    }
}

/// 64-bit integers, with arithmetic that wraps around.
impl Element for i64 {
    open spec fn zero_value() -> i64 {
        0i64
    }

    open spec fn one_value() -> i64 {
        1i64
    }

    open spec fn minus_one_value() -> i64 {
        -1i64
    }

    open spec fn sum(self, rhs: i64) -> i64 {
        self.wrapping_add(rhs)
    }

    open spec fn product(self, rhs: i64) -> i64 {
        self.wrapping_mul(rhs)
    }

    fn zero() -> (r: i64) {
        0
    }

    fn one() -> (r: i64) {
        1
    }

    fn minus_one() -> (r: i64) {
        -1
    }

    fn plus(self, rhs: i64) -> (r: i64) {
        self.wrapping_add(rhs)
    }

    fn times(self, rhs: i64) -> (r: i64) {
        self.wrapping_mul(rhs)
    }
}

} // verus!
