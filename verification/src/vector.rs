//! Two-component vectors: positions, displacements and accelerations.
use crate::scalar::{twice, zero, Scalar};
use core::ops::{Add, Mul, Sub};
use vstd::prelude::*;
use vstd::std_specs::ops::{AddSpec, MulSpec, SubSpec};

verus! {

/// A vector in the plane, component 0 along x and component 1 along y.
pub type Vector2<S> = [S; 2];

/// The vector whose two components are zero.
pub open spec fn zero_vector<S: Scalar>() -> Vector2<S> {
    [zero(), zero()]
}

/// The component-wise sum of `a` and `b`.
pub open spec fn vec_sum<S: Scalar>(a: Vector2<S>, b: Vector2<S>) -> Vector2<S> {
    [a[0].add_spec(b[0]), a[1].add_spec(b[1])]
}

/// The component-wise difference `a - b`.
pub open spec fn vec_difference<S: Scalar>(a: Vector2<S>, b: Vector2<S>) -> Vector2<S> {
    [a[0].sub_spec(b[0]), a[1].sub_spec(b[1])]
}

/// `a` with both components multiplied by `k`.
pub open spec fn vec_scaled<S: Scalar>(a: Vector2<S>, k: S) -> Vector2<S> {
    [a[0].mul_spec(k), a[1].mul_spec(k)]
}

/// `a` with both components doubled.
pub open spec fn vec_twice<S: Scalar>(a: Vector2<S>) -> Vector2<S> {
    [twice(a[0]), twice(a[1])]
}

/// `S` permits both additions of `vec_sum(a, b)`.
pub open spec fn can_add<S: Scalar>(a: Vector2<S>, b: Vector2<S>) -> bool {
    a[0].add_req(b[0]) && a[1].add_req(b[1])
}

/// `S` permits both subtractions of `vec_difference(a, b)`.
pub open spec fn can_subtract<S: Scalar>(a: Vector2<S>, b: Vector2<S>) -> bool {
    a[0].sub_req(b[0]) && a[1].sub_req(b[1])
}

/// `S` permits both multiplications of `vec_scaled(a, k)`.
pub open spec fn can_scale<S: Scalar>(a: Vector2<S>, k: S) -> bool {
    a[0].mul_req(k) && a[1].mul_req(k)
}

/// Adding to `p` its difference from itself gives `p` again.
pub open spec fn stays_put<S: Scalar>(p: Vector2<S>) -> bool {
    vec_sum(p, vec_difference(p, p)) == p
}

/// Adding `g` to the zero vector gives `g`.
pub open spec fn adds_to_nothing<S: Scalar>(g: Vector2<S>) -> bool {
    vec_sum(zero_vector(), g) == g
}

/// Scaling `p` by twice `k` gives twice what scaling `p` by `k` gives.
pub open spec fn doubles_with<S: Scalar>(p: Vector2<S>, k: S) -> bool {
    vec_scaled(p, twice(k)) == vec_twice(vec_scaled(p, k))
}

/// Scaling `p` by zero gives the zero vector.
pub open spec fn vanishes<S: Scalar>(p: Vector2<S>) -> bool {
    vec_scaled(p, zero()) == zero_vector::<S>()
}

/// Calls `graphics::math::add`, which returns `[a[0] + b[0], a[1] + b[1]]`.
///
/// Trusted: that the result holds the two sums that `S`'s `+` returns, which
/// are `add_spec` of the operands where `S` obeys its addition specification.
/// The operands must be ones that `+` accepts, since the call applies it to them.
#[verifier::external_body]
pub(crate) fn vec2_add<S>(a: Vector2<S>, b: Vector2<S>) -> (r: Vector2<S>) where
    S: Copy + Add<S, Output = S>,

    requires
        a[0].add_req(b[0]),
        a[1].add_req(b[1]),
    ensures
        S::obeys_add_spec() ==> r[0] == a[0].add_spec(b[0]) && r[1] == a[1].add_spec(b[1]),
{
    graphics::math::add(a, b)
}

/// Calls `graphics::math::sub`, which returns `[a[0] - b[0], a[1] - b[1]]`.
///
/// Trusted: that the result holds the two differences that `S`'s `-` returns,
/// which are `sub_spec` of the operands where `S` obeys its subtraction
/// specification. The operands must be ones that `-` accepts.
#[verifier::external_body]
pub(crate) fn vec2_sub<S>(a: Vector2<S>, b: Vector2<S>) -> (r: Vector2<S>) where
    S: Copy + Sub<S, Output = S>,

    requires
        a[0].sub_req(b[0]),
        a[1].sub_req(b[1]),
    ensures
        S::obeys_sub_spec() ==> r[0] == a[0].sub_spec(b[0]) && r[1] == a[1].sub_spec(b[1]),
{
    graphics::math::sub(a, b)
}

/// Calls `graphics::math::mul_scalar`, which returns `[a[0] * k, a[1] * k]`.
///
/// Trusted: that the result holds the two products that `S`'s `*` returns,
/// which are `mul_spec` of the operands where `S` obeys its multiplication
/// specification. The operands must be ones that `*` accepts.
#[verifier::external_body]
pub(crate) fn vec2_scale<S>(a: Vector2<S>, k: S) -> (r: Vector2<S>) where
    S: Copy + Mul<S, Output = S>,

    requires
        a[0].mul_req(k),
        a[1].mul_req(k),
    ensures
        S::obeys_mul_spec() ==> r[0] == a[0].mul_spec(k) && r[1] == a[1].mul_spec(k),
{
    graphics::math::mul_scalar(a, k)
}

} // verus!
