//! One simulated body: a point mass with a polygon attached for drawing.
use crate::scalar::{obeys_arithmetic, squared, twice, Scalar};
use crate::vector::{
    can_add, can_scale, can_subtract, doubles_with, vec2_add, vec2_scale, vec2_sub,
    vec_difference, vec_scaled, vec_sum, vec_twice, zero_vector, Vector2,
};
use vstd::prelude::*;
use vstd::std_specs::ops::MulSpec;

verus! {

/// The mathematical model of a body.
pub struct Body<S> {
    /// The latest integrated position.
    pub position_current: Vector2<S>,
    /// The position one tick ago; with `position_current` it encodes the velocity.
    pub position_old: Vector2<S>,
    /// What has been accumulated for the tick in progress.
    pub acceleration: Vector2<S>,
    /// The polygon's vertices, in order, relative to the body's position.
    pub points: Seq<Vector2<S>>,
}

impl<S: Scalar> Body<S> {
    /// The body after `acc` has been added to what it has accumulated.
    pub open spec fn accelerated(self, acc: Vector2<S>) -> Self {
        Body { acceleration: vec_sum(self.acceleration, acc), ..self }
    }

    /// `S` permits the operations of `accelerated(acc)`.
    pub open spec fn can_accelerate(self, acc: Vector2<S>) -> bool {
        can_add(self.acceleration, acc)
    }

    /// The displacement over the last tick.
    pub open spec fn velocity(self) -> Vector2<S> {
        vec_difference(self.position_current, self.position_old)
    }

    /// Where the body is after a tick of length `dt`: its position, plus its
    /// last displacement, plus its acceleration times `dt` squared.
    pub open spec fn next_position(self, dt: S) -> Vector2<S> {
        vec_sum(
            vec_sum(self.position_current, self.velocity()),
            vec_scaled(self.acceleration, squared(dt)),
        )
    }

    /// The body after one Verlet step of length `dt`: the current position
    /// becomes the old one, the next position becomes the current one, and the
    /// acceleration is consumed.
    pub open spec fn stepped(self, dt: S) -> Self {
        Body {
            position_current: self.next_position(dt),
            position_old: self.position_current,
            acceleration: zero_vector(),
            points: self.points,
        }
    }

    /// `S` permits the operations of `stepped(dt)`.
    pub open spec fn can_step(self, dt: S) -> bool {
        &&& can_subtract(self.position_current, self.position_old)
        &&& can_add(self.position_current, self.velocity())
        &&& dt.mul_req(dt)
        &&& can_scale(self.acceleration, squared(dt))
        &&& can_add(
            vec_sum(self.position_current, self.velocity()),
            vec_scaled(self.acceleration, squared(dt)),
        )
    }

    /// The body's position in pixels, at `unit_size` pixels per unit.
    pub open spec fn screen_position(self, unit_size: S) -> Vector2<S> {
        vec_scaled(self.position_current, unit_size)
    }

    /// `S` permits the operations of `screen_position(unit_size)`.
    pub open spec fn can_place(self, unit_size: S) -> bool {
        can_scale(self.position_current, unit_size)
    }

    /// The polygon's vertices in pixels, in the same order.
    pub open spec fn screen_shape(self, unit_size: S) -> Seq<Vector2<S>> {
        Seq::new(self.points.len(), |i: int| vec_scaled(self.points[i], unit_size))
    }

    /// `S` permits the operations of `screen_shape(unit_size)`.
    pub open spec fn can_shape(self, unit_size: S) -> bool {
        forall|i: int| 0 <= i < self.points.len() ==> can_scale(#[trigger] self.points[i], unit_size)
    }

    /// The body has not moved over the last tick and has accumulated nothing.
    pub open spec fn at_rest(self) -> bool {
        &&& self.position_current == self.position_old
        &&& self.acceleration == zero_vector::<S>()
    }
}

/// A simulated body.
pub struct PhysicsObject<S> {
    /// The latest integrated position, in simulation units.
    pub position_current: Vector2<S>,
    /// The position one tick ago.
    pub position_old: Vector2<S>,
    /// What has been accumulated for the tick in progress; zero between ticks.
    pub acceleration: Vector2<S>,
    /// The polygon's vertices, in order, relative to the body's position.
    pub points: Vec<Vector2<S>>,
}

impl<S> View for PhysicsObject<S> {
    type V = Body<S>;

    open spec fn view(&self) -> Body<S> {
        Body {
            position_current: self.position_current,
            position_old: self.position_old,
            acceleration: self.acceleration,
            points: self.points@,
        }
    }
}

impl<S: Scalar> PhysicsObject<S> {
    /// The position in pixels.
    pub fn get_pos(&self, unit_size: S) -> (r: Vector2<S>)
        requires
            obeys_arithmetic::<S>(),
            self@.can_place(unit_size),
        ensures
            r == self@.screen_position(unit_size),
    {
        [self.position_current[0] * unit_size, self.position_current[1] * unit_size]
    }

    /// The polygon's vertices in pixels.
    pub fn get_points(&self, unit_size: S) -> (r: Vec<Vector2<S>>)
        requires
            obeys_arithmetic::<S>(),
            self@.can_shape(unit_size),
        ensures
            r@ == self@.screen_shape(unit_size),
    {
        let n = self.points.len();
        let mut scaled: Vec<Vector2<S>> = Vec::new();
        let mut i: usize = 0;
        while i < n
            invariant
                obeys_arithmetic::<S>(),
                self@.can_shape(unit_size),
                n == self.points.len(),
                i <= n,
                scaled.len() == i,
                forall|j: int| 0 <= j < i ==> #[trigger] scaled[j] == vec_scaled(self.points[j], unit_size),
            decreases n - i,
        {
            let x = self.points[i];
            assert(can_scale(self@.points[i as int], unit_size));
            scaled.push([x[0] * unit_size, x[1] * unit_size]);
            i += 1;
        }
        scaled
    }

    /// One Verlet step of length `dt`.
    pub fn update_position(&mut self, dt: S)
        requires
            obeys_arithmetic::<S>(),
            old(self)@.can_step(dt),
        ensures
            final(self)@ == old(self)@.stepped(dt),
            final(self).acceleration == zero_vector::<S>(),
    {
        let velocity = vec2_sub(self.position_current, self.position_old);
        self.position_old = self.position_current;
        self.position_current = vec2_add(
            vec2_add(self.position_current, velocity),
            vec2_scale(self.acceleration, dt * dt),
        );
        assert(self.position_current =~= old(self)@.next_position(dt));
        let nothing = S::from(0u8);
        self.acceleration = [nothing, nothing];
    }

    /// Adds `acc` to what the body has accumulated for this tick.
    pub fn accelerate(&mut self, acc: Vector2<S>)
        requires
            obeys_arithmetic::<S>(),
            old(self)@.can_accelerate(acc),
        ensures
            final(self)@ == old(self)@.accelerated(acc),
    {
        self.acceleration = vec2_add(self.acceleration, acc);
        assert(self.acceleration =~= vec_sum(old(self).acceleration, acc));
    }
}

/// Doubling the unit size doubles every coordinate of a body's position on
/// screen and of its shape on screen, and keeps the vertices' number and order.
///
/// This rests on one identity of `S` at the values involved: that every
/// coordinate `x` of the body and the unit size `k` satisfy
/// `x * (2 * k) == 2 * (x * k)`. A number type with a largest value does not
/// satisfy it where the doubling overflows.
pub proof fn lemma_screen_doubles<S: Scalar>(body: Body<S>, unit_size: S)
    requires
        doubles_with(body.position_current, unit_size),
        forall|j: int| 0 <= j < body.points.len() ==> doubles_with(#[trigger] body.points[j], unit_size),
    ensures
        body.screen_position(twice(unit_size)) == vec_twice(body.screen_position(unit_size)),
        body.screen_shape(twice(unit_size)).len() == body.screen_shape(unit_size).len(),
        forall|j: int|
            0 <= j < body.points.len() ==> #[trigger] body.screen_shape(twice(unit_size))[j]
                == vec_twice(body.screen_shape(unit_size)[j]),
{
}

} // verus!
