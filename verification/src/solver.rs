//! The integration state: gravity, the pixel scale, and the bodies.
use crate::object::{Body, PhysicsObject};
use crate::scalar::{half, obeys_arithmetic, squared, whole, zero, Scalar};
use crate::vector::{
    adds_to_nothing, stays_put, vanishes, vec_scaled, vec_sum, zero_vector, Vector2,
};
use vstd::prelude::*;
use vstd::std_specs::ops::DivSpec;

verus! {

/// How many simulation units span the window's width.
pub const NUM_UNITS: u8 = 10;

/// The pixels per unit of a window `width` pixels wide.
pub open spec fn unit_size_for<S: Scalar>(width: S) -> S {
    width.div_spec(whole(NUM_UNITS))
}

/// `S` permits the division of `unit_size_for(width)`.
pub open spec fn can_measure<S: Scalar>(width: S) -> bool {
    width.div_req(whole(NUM_UNITS))
}

/// The body every simulation starts with: at rest at (5, 0), shaped as the
/// pentagon (0, 0), (1, 0), (1/2, 1), (1, 2), (0, 2).
pub open spec fn seed_body<S: Scalar>() -> Body<S> {
    Body {
        position_current: [whole(5), zero()],
        position_old: [whole(5), zero()],
        acceleration: zero_vector(),
        points: seq![
            [zero(), zero()],
            [whole(1), zero()],
            [half(), whole(1)],
            [whole(1), whole(2)],
            [zero(), whole(2)],
        ],
    }
}

/// `S` permits the one division that `seed_body` takes.
pub open spec fn can_seed<S: Scalar>() -> bool {
    whole::<S>(1).div_req(whole(2))
}

/// The mathematical model of the integration state.
pub struct IntegrationState<S> {
    /// The acceleration every body receives each tick.
    pub gravity: Vector2<S>,
    /// Pixels per simulation unit.
    pub unit_size: S,
    /// The bodies, in insertion order.
    pub objects: Seq<Body<S>>,
}

impl<S: Scalar> IntegrationState<S> {
    /// The state a simulation starts in, for a window `width` pixels wide.
    pub open spec fn initial(gravity: Vector2<S>, width: S) -> Self {
        IntegrationState { gravity, unit_size: unit_size_for(width), objects: seq![seed_body()] }
    }

    /// The state after the window's width has become `width`.
    pub open spec fn resized(self, width: S) -> Self {
        IntegrationState { unit_size: unit_size_for(width), ..self }
    }

    /// The state after every body has received gravity.
    pub open spec fn with_gravity(self) -> Self {
        IntegrationState {
            objects: Seq::new(
                self.objects.len(),
                |i: int| self.objects[i].accelerated(self.gravity),
            ),
            ..self
        }
    }

    /// `S` permits the operations of `with_gravity()`.
    pub open spec fn can_apply_gravity(self) -> bool {
        forall|i: int|
            0 <= i < self.objects.len() ==> (#[trigger] self.objects[i]).can_accelerate(
                self.gravity,
            )
    }

    /// The state after every body has taken one Verlet step of length `dt`.
    pub open spec fn with_positions(self, dt: S) -> Self {
        IntegrationState {
            objects: Seq::new(self.objects.len(), |i: int| self.objects[i].stepped(dt)),
            ..self
        }
    }

    /// `S` permits the operations of `with_positions(dt)`.
    pub open spec fn can_update_positions(self, dt: S) -> bool {
        forall|i: int| 0 <= i < self.objects.len() ==> (#[trigger] self.objects[i]).can_step(dt)
    }

    /// The state after one tick of length `dt`: gravity for every body, then
    /// a Verlet step for every body.
    pub open spec fn advanced(self, dt: S) -> Self {
        self.with_gravity().with_positions(dt)
    }

    /// `S` permits the operations of `advanced(dt)`.
    pub open spec fn can_advance(self, dt: S) -> bool {
        self.can_apply_gravity() && self.with_gravity().can_update_positions(dt)
    }
}

/// The integration state.
pub struct PhysicsSolver<S> {
    /// The acceleration every body receives each tick.
    pub gravity: Vector2<S>,
    /// Pixels per simulation unit.
    pub unit_size: S,
    /// The bodies, in insertion order.
    pub objects: Vec<PhysicsObject<S>>,
}

impl<S> View for PhysicsSolver<S> {
    type V = IntegrationState<S>;

    open spec fn view(&self) -> IntegrationState<S> {
        IntegrationState {
            gravity: self.gravity,
            unit_size: self.unit_size,
            objects: Seq::new(self.objects.len() as nat, |i: int| self.objects[i]@),
        }
    }
}

impl<S: Scalar> PhysicsSolver<S> {
    /// A simulation of the seed body under `gravity`, in a window `width`
    /// pixels wide.
    pub fn new(gravity: Vector2<S>, width: S) -> (r: Self)
        requires
            obeys_arithmetic::<S>(),
            can_measure(width),
            can_seed::<S>(),
        ensures
            r@ == IntegrationState::initial(gravity, width),
    {
        let unit_size = width / S::from(NUM_UNITS);
        let nothing = S::from(0u8);
        let one = S::from(1u8);
        let two = S::from(2u8);
        let five = S::from(5u8);
        let middle = one / two;
        let mut points: Vec<Vector2<S>> = Vec::new();
        points.push([nothing, nothing]);
        points.push([one, nothing]);
        points.push([middle, one]);
        points.push([one, two]);
        points.push([nothing, two]);
        let seed = PhysicsObject {
            position_current: [five, nothing],
            position_old: [five, nothing],
            acceleration: [nothing, nothing],
            points,
        };
        assert(seed.points@ =~= seed_body::<S>().points);
        let mut objects: Vec<PhysicsObject<S>> = Vec::new();
        objects.push(seed);
        let r = PhysicsSolver { gravity, unit_size, objects };
        assert(r@.objects =~= seq![seed_body::<S>()]);
        r
    }

    /// Takes the pixel scale from the window's new `width`. The bodies stay
    /// as they are.
    pub fn resize(&mut self, width: S)
        requires
            obeys_arithmetic::<S>(),
            can_measure(width),
        ensures
            final(self)@ == old(self)@.resized(width),
    {
        let unit_size = width / S::from(NUM_UNITS);
        self.unit_size = unit_size;
    }

    /// Advances the simulation by one tick of length `dt`.
    pub fn update(&mut self, dt: S)
        requires
            obeys_arithmetic::<S>(),
            old(self)@.can_advance(dt),
        ensures
            final(self)@ == old(self)@.advanced(dt),
            forall|i: int|
                0 <= i < final(self).objects.len()
                    ==> (#[trigger] final(self).objects[i]).acceleration == zero_vector::<S>(),
    {
        self.apply_gravity();
        self.update_positions(dt);
    }

    /// Adds gravity to what each body has accumulated, in list order.
    pub fn apply_gravity(&mut self)
        requires
            obeys_arithmetic::<S>(),
            old(self)@.can_apply_gravity(),
        ensures
            final(self)@ == old(self)@.with_gravity(),
    {
        let n = self.objects.len();
        let mut i: usize = 0;
        while i < n
            invariant
                obeys_arithmetic::<S>(),
                old(self)@.can_apply_gravity(),
                i <= n,
                n == self.objects.len(),
                n == old(self).objects.len(),
                self.gravity == old(self).gravity,
                self.unit_size == old(self).unit_size,
                forall|j: int|
                    0 <= j < i ==> (#[trigger] self.objects[j])@ == old(self).objects[j]@.accelerated(
                        self.gravity,
                    ),
                forall|j: int| i <= j < n ==> (#[trigger] self.objects[j])@ == old(self).objects[j]@,
            decreases n - i,
        {
            let gravity = self.gravity;
            assert(old(self)@.objects[i as int].can_accelerate(gravity));
            self.objects[i].accelerate(gravity);
            i += 1;
        }
        assert(self@.objects =~= old(self)@.with_gravity().objects);
    }

    /// Takes each body through one Verlet step of length `dt`, in list order.
    pub fn update_positions(&mut self, dt: S)
        requires
            obeys_arithmetic::<S>(),
            old(self)@.can_update_positions(dt),
        ensures
            final(self)@ == old(self)@.with_positions(dt),
            forall|i: int|
                0 <= i < final(self).objects.len()
                    ==> (#[trigger] final(self).objects[i]).acceleration == zero_vector::<S>(),
    {
        let n = self.objects.len();
        let mut i: usize = 0;
        while i < n
            invariant
                obeys_arithmetic::<S>(),
                old(self)@.can_update_positions(dt),
                i <= n,
                n == self.objects.len(),
                n == old(self).objects.len(),
                self.gravity == old(self).gravity,
                self.unit_size == old(self).unit_size,
                forall|j: int|
                    0 <= j < i ==> (#[trigger] self.objects[j])@ == old(self).objects[j]@.stepped(dt),
                forall|j: int|
                    0 <= j < i ==> (#[trigger] self.objects[j]).acceleration == zero_vector::<S>(),
                forall|j: int| i <= j < n ==> (#[trigger] self.objects[j])@ == old(self).objects[j]@,
            decreases n - i,
        {
            assert(old(self)@.objects[i as int].can_step(dt));
            self.objects[i].update_position(dt);
            i += 1;
        }
        assert(self@.objects =~= old(self)@.with_positions(dt).objects);
    }
}

/// Resizing twice to the same width leaves the state that resizing once
/// leaves: the pixel scale depends on the last width alone.
pub proof fn lemma_resize_idempotent<S: Scalar>(state: IntegrationState<S>, width: S)
    ensures
        state.resized(width).resized(width) == state.resized(width),
        state.resized(width).unit_size == unit_size_for(width),
{
}

/// A body that was at rest before a tick has, after it, the old position it
/// had before: the tick moves the current position into the old one.
pub proof fn lemma_tick_keeps_resting_place<S: Scalar>(state: IntegrationState<S>, dt: S, i: int)
    requires
        0 <= i < state.objects.len(),
        state.objects[i].at_rest(),
    ensures
        state.advanced(dt).objects[i].position_old == state.objects[i].position_old,
{
}

/// A body at rest ends a tick of length `dt` at its old position plus gravity
/// times `dt` squared.
///
/// This rests on two identities of `S` at the values involved: that the
/// position `p` of the body satisfies `p + (p - p) == p`, and that gravity
/// `g` satisfies `0 + g == g`. Whole numbers satisfy both wherever the
/// operations do not overflow; a number type with infinities or signed zeros
/// does not satisfy them at those values.
pub proof fn lemma_tick_from_rest<S: Scalar>(state: IntegrationState<S>, dt: S, i: int)
    requires
        0 <= i < state.objects.len(),
        state.objects[i].at_rest(),
        stays_put(state.objects[i].position_current),
        adds_to_nothing(state.gravity),
    ensures
        state.advanced(dt).objects[i].position_current == vec_sum(
            state.objects[i].position_old,
            vec_scaled(state.gravity, squared(dt)),
        ),
{
}

/// After a resize to a window of no width the unit size is zero, and every
/// body's position on screen is the origin.
///
/// This rests on two identities of `S` at the values involved: that zero
/// divided by the number of units is zero, and that each coordinate of the
/// body times zero is zero. A number type with infinities does not satisfy
/// the second at those values.
pub proof fn lemma_no_width_collapses<S: Scalar>(state: IntegrationState<S>, i: int)
    requires
        0 <= i < state.objects.len(),
        unit_size_for(zero::<S>()) == zero::<S>(),
        vanishes(state.objects[i].position_current),
    ensures
        state.resized(zero()).unit_size == zero::<S>(),
        state.resized(zero()).objects[i].screen_position(state.resized(zero()).unit_size)
            == zero_vector::<S>(),
{
}

} // verus!
