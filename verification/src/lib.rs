//! A Verlet integrator for bodies falling under gravity, and its mapping from
//! simulation units to pixels, generic over the number type it computes with.
//!
//! The executable types [`PhysicsSolver`] and [`PhysicsObject`] are specified
//! against the mathematical models [`IntegrationState`] and [`Body`]: every
//! method states which model value it produces.
//!
//! The models are written over the operators of the number type `S`, as their
//! specification functions name them. What is proved therefore holds of
//! every [`Scalar`] whose operators return what those functions name
//! ([`scalar::obeys_arithmetic`]), whenever the operators accept the operands
//! of the call. Nothing is assumed of the arithmetic beyond that: where a law
//! needs an identity of the numbers, such as `x - x == 0`, it asks for it at
//! the values involved.
pub mod object;
pub mod scalar;
pub mod solver;
pub mod vector;

pub use object::{Body, PhysicsObject};
pub use scalar::Scalar;
pub use solver::{IntegrationState, PhysicsSolver, NUM_UNITS};
pub use vector::Vector2;
