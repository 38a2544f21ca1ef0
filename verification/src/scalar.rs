//! The numbers the simulation computes with.
use core::ops::{Add, Div, Mul, Sub};
use vstd::prelude::*;
use vstd::std_specs::convert::FromSpec;
use vstd::std_specs::ops::{AddSpec, DivSpec, MulSpec, SubSpec};

verus! {

/// A number type the simulation can run on: copyable, closed under the four
/// operators, and constructible from a small whole number.
///
/// Every type with these operators is a `Scalar`; there is nothing to implement.
pub trait Scalar: Copy + Add<Output = Self> + Sub<Output = Self> + Mul<Output = Self> + Div<
    Output = Self,
> + From<u8> {

}

impl<T> Scalar for T where
    T: Copy + Add<Output = T> + Sub<Output = T> + Mul<Output = T> + Div<Output = T> + From<u8>,
 {

}

/// The operators of `S`, and its conversion from `u8`, return exactly what
/// their specification functions (`add_spec`, `sub_spec`, `mul_spec`,
/// `div_spec`, `from_spec`) name: each result is a function of the operands.
///
/// The whole-number types obey. For a floating-point type this is an
/// assumption that nothing here proves; it can fail only in which of the
/// not-a-number values an operation returns.
pub open spec fn obeys_arithmetic<S: Scalar>() -> bool {
    &&& S::obeys_add_spec()
    &&& S::obeys_sub_spec()
    &&& S::obeys_mul_spec()
    &&& S::obeys_div_spec()
    &&& S::obeys_from_spec()
}

/// The scalar that stands for the whole number `n`.
pub open spec fn whole<S: Scalar>(n: u8) -> S {
    S::from_spec(n)
}

/// The scalar zero.
pub open spec fn zero<S: Scalar>() -> S {
    whole(0)
}

/// One half, computed as one divided by two.
pub open spec fn half<S: Scalar>() -> S {
    whole::<S>(1).div_spec(whole(2))
}

/// Two times `a`, as `S` computes it.
pub open spec fn twice<S: Scalar>(a: S) -> S {
    whole::<S>(2).mul_spec(a)
}

/// The square of `a`, as `S` computes it.
pub open spec fn squared<S: Scalar>(a: S) -> S {
    a.mul_spec(a)
}

} // verus!
