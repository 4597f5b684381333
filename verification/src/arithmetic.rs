use vstd::prelude::*;
use crate::behaviours::Wall;
use crate::physics::Entity;

verus! {

/// The arithmetic that the simulation is carried out in: a type of plane
/// vectors, a type of scalars, and every formula that computes with them.
/// The library decides what is computed from what, in which order and on
/// which condition; how a formula is evaluated is left to the
/// implementation, and the library assumes nothing about its answers: what
/// it proves holds of whatever a formula answers. Each method is documented
/// with the formula that it stands for.
pub trait Arithmetic {
    /// Plane vectors: positions, velocities, headings, forces and goals.
    type V: Copy;

    /// Scalars: angles, rates, masses, areas, radii and lengths of time.
    type S: Copy;

    /// The zero vector.
    fn zero() -> Self::V;

    /// The sum `a + b`.
    fn plus(a: Self::V, b: Self::V) -> Self::V;

    /// The difference `a - b`.
    fn minus(a: Self::V, b: Self::V) -> Self::V;

    /// The vector `v` divided by the scalar `s`.
    fn over(v: Self::V, s: Self::S) -> Self::V;

    /// The vector `v` divided by the count `n`.
    fn over_count(v: Self::V, n: usize) -> Self::V;

    /// Whether `v` is the zero vector.
    fn is_zero(v: Self::V) -> bool;

    /// The vector of length one in the direction of `v`.
    fn normalize(v: Self::V) -> Self::V;

    /// The vector of length one in the direction of `v`, times `magnitude`.
    fn along(v: Self::V, magnitude: Self::S) -> Self::V;

    /// Whether the length of `v` is at most `radius`.
    fn within(v: Self::V, radius: Self::S) -> bool;

    /// The product `a * b`.
    fn times(a: Self::S, b: Self::S) -> Self::S;

    /// Whether the length of `v` is more than `threshold`.
    fn beyond(v: Self::V, threshold: Self::S) -> bool;

    /// The push that a neighbour at `pos` gives: directly away from it,
    /// with a magnitude of `radius` less the distance to it.
    fn push_away(pos: Self::V, radius: Self::S) -> Self::V;

    /// The distance from `pos` to the given wall of an arena with the half
    /// extents `dimensions`, as a multiple of `min_dist`.
    fn wall_distance(pos: Self::V, dimensions: Self::V, min_dist: Self::S, wall: Wall) -> Self::S;

    /// Whether `distance` is less than one.
    fn near(distance: Self::S) -> bool;

    /// The vector that points from the given wall into the arena, with a
    /// magnitude of one less `distance`.
    fn inward(distance: Self::S, wall: Wall) -> Self::V;

    /// The scalar zero.
    fn nought() -> Self::S;

    /// The unsigned angle between `v` and the upward unit vector.
    fn angle_from_j_hat(v: Self::V) -> Self::S;

    /// Whether `v` points to the left: whether its first coordinate is
    /// negative.
    fn points_left(v: Self::V) -> bool;

    /// What `angle` lacks of a full turn.
    fn explement(angle: Self::S) -> Self::S;

    /// The difference `a - b`.
    fn difference(a: Self::S, b: Self::S) -> Self::S;

    /// Whether `a` is less than zero.
    fn is_negative(a: Self::S) -> bool;

    /// The angle `a` and a full turn more.
    fn add_turn(a: Self::S) -> Self::S;

    /// Whether `a` is more than half a turn.
    fn over_half_turn(a: Self::S) -> bool;

    /// The scalar `-a`.
    fn negate(a: Self::S) -> Self::S;

    /// The turn that a steering angle commands, as a share of the largest
    /// turn rate: the angle as a share of half a turn, negated.
    fn angle_coefficient(angle: Self::S) -> Self::S;

    /// How far an agent faces its goal: what the magnitude of the steering
    /// angle lacks of half a turn, as a share of half a turn.
    fn force_coefficient(angle: Self::S) -> Self::S;

    /// The magnitude of the propulsive force: the length of `goal` times
    /// `max_force`, damped exponentially as `force_coefficient` falls
    /// below one.
    fn thrust(force_coefficient: Self::S, goal: Self::V, max_force: Self::S) -> Self::S;

    /// The cross-section that shows an agent's effort: a quarter, and twice
    /// what `force_coefficient` lacks of one.
    fn effort_area(force_coefficient: Self::S) -> Self::S;

    /// The share of the velocity `vel` that lies along the heading `rot`:
    /// the dot product of the two, each taken at length one.
    fn alignment(vel: Self::V, rot: Self::V) -> Self::S;

    /// The area that drag acts on: `area`, and four times what `alignment`
    /// lacks of one.
    fn drag_area(area: Self::S, alignment: Self::S) -> Self::S;

    /// The signed magnitude of quadratic drag along the velocity: half of
    /// `area` times `c` times the square of the speed, negated.
    fn drag_magnitude(area: Self::S, c: Self::S, vel: Self::V) -> Self::S;

    /// One step of Euler integration: `value` and `rate_of_change` times
    /// `delta_time`.
    fn integrate(value: Self::V, rate_of_change: Self::V, delta_time: Self::S) -> Self::V;

    /// The position `pos` with each coordinate brought into the arena, from
    /// minus one to one.
    fn clamp_to_arena(pos: Self::V) -> Self::V;

    /// The heading `rot` turned by `angular_vel` times `delta_time`.
    fn rotate(rot: Self::V, angular_vel: Self::S, delta_time: Self::S) -> Self::V;

    /// An entity at rest at the origin, with unit mass.
    fn default_entity() -> Entity<Self::V, Self::S>;

    /// A position drawn at random from the rectangle between the corners
    /// `min` and `max`, of which `min` is the lower in both coordinates.
    fn random_position(min: Self::V, max: Self::V) -> Self::V;

    /// A heading of length one, drawn at random from the full turn.
    fn random_heading() -> Self::V;
}

} // verus!
