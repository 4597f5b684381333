use vstd::prelude::*;
use crate::arithmetic::Arithmetic;
use crate::determinism::{lemma_clockwise_from_up_once, single_valued};
use crate::goals::ResultantGoal;
use crate::physics::{add_force, collinear, collinear_force, Entity};
use crate::utilities::{clockwise_angle_from_j_hat, clockwise_from_up};

verus! {

/// `angle` is a clockwise angle from `base` to `vec`, from zero up to a
/// full turn: the difference of their clockwise angles from the upward
/// direction, and a full turn more where that is negative.
pub open spec fn clockwise_between<K: Arithmetic>(vec: K::V, base: K::V, angle: K::S) -> bool {
    exists|vec_angle: K::S, base_angle: K::S, adjusted: K::S|
        {
            &&& clockwise_from_up::<K>(vec, vec_angle)
            &&& clockwise_from_up::<K>(base, base_angle)
            &&& #[trigger] call_ensures(K::difference, (vec_angle, base_angle), adjusted)
            &&& {
                ||| call_ensures(K::is_negative, (adjusted,), true) && call_ensures(
                    K::add_turn,
                    (adjusted,),
                    angle,
                )
                ||| call_ensures(K::is_negative, (adjusted,), false) && angle == adjusted
            }
        }
}

/// The clockwise angle from `base` to `vec`, from zero up to a full turn.
pub fn clockwise_angle_relative_to<K: Arithmetic>(vec: &K::V, base: &K::V) -> (angle: K::S)
    ensures
        clockwise_between::<K>(*vec, *base, angle),
{
    let vec_angle = clockwise_angle_from_j_hat::<K>(vec);
    let base_angle = clockwise_angle_from_j_hat::<K>(base);

    let adjusted_angle = K::difference(vec_angle, base_angle);
    if K::is_negative(adjusted_angle) {
        K::add_turn(adjusted_angle)
    } else {
        adjusted_angle
    }
}

/// `angle` is a signed angle of the shorter turn between `rot` and `goal`:
/// the clockwise angle from `goal` to `rot` where that is at most half a
/// turn, and else what it lacks of a full turn, negated.
pub open spec fn steers<K: Arithmetic>(rot: K::V, goal: K::V, angle: K::S) -> bool {
    exists|cw_angle: K::S| #[trigger]
        clockwise_between::<K>(rot, goal, cw_angle) && {
            ||| call_ensures(K::over_half_turn, (cw_angle,), true) && exists|rest: K::S| #[trigger]
                call_ensures(K::explement, (cw_angle,), rest) && call_ensures(K::negate, (rest,), angle)
            ||| call_ensures(K::over_half_turn, (cw_angle,), false) && angle == cw_angle
        }
}

/// The signed angle of the shorter turn between `rot` and `goal`.
pub fn steering_angle<K: Arithmetic>(rot: &K::V, goal: &K::V) -> (angle: K::S)
    ensures
        steers::<K>(*rot, *goal, angle),
{
    let cw_angle = clockwise_angle_relative_to::<K>(rot, goal);

    if K::over_half_turn(cw_angle) {
        let rest = K::explement(cw_angle);
        K::negate(rest)
    } else {
        cw_angle
    }
}

/// `after` is a possible state of the agent `before` once it has been
/// steered towards the goal `g`, from which its heading is off by `angle`.
///
/// The force is applied along the heading, never towards the goal itself,
/// and is added to the forces gathered so far; the turn rate is the angle
/// coefficient times the largest turn rate; the area shows the effort.
/// Position, velocity, heading and mass are left alone.
pub open spec fn steered_by<K: Arithmetic>(
    before: Entity<K::V, K::S>,
    g: K::V,
    angle: K::S,
    max_ang_vel: K::S,
    max_force: K::S,
    after: Entity<K::V, K::S>,
) -> bool {
    exists|angle_coefficient: K::S, force_coefficient: K::S, magnitude: K::S, force: K::V|
        {
            &&& #[trigger] call_ensures(K::angle_coefficient, (angle,), angle_coefficient)
            &&& #[trigger] call_ensures(K::force_coefficient, (angle,), force_coefficient)
            &&& #[trigger] call_ensures(K::thrust, (force_coefficient, g, max_force), magnitude)
            &&& #[trigger] collinear::<K>(before.rot, magnitude, force)
            &&& call_ensures(K::plus, (before.resultant_force, force), after.resultant_force)
            &&& call_ensures(K::times, (angle_coefficient, max_ang_vel), after.angular_vel)
            &&& call_ensures(K::effort_area, (force_coefficient,), after.area)
            &&& after.pos == before.pos
            &&& after.vel == before.vel
            &&& after.rot == before.rot
            &&& after.mass == before.mass
        }
}

/// `after` is a possible state of the agent `before` once it has been
/// steered towards the goal `g`: by the steering angle that is taken from
/// the goal to the heading.
pub open spec fn steered<K: Arithmetic>(
    before: Entity<K::V, K::S>,
    g: K::V,
    max_ang_vel: K::S,
    max_force: K::S,
    after: Entity<K::V, K::S>,
) -> bool {
    exists|angle: K::S| #[trigger]
        steers::<K>(g, before.rot, angle) && steered_by::<K>(
            before,
            g,
            angle,
            max_ang_vel,
            max_force,
            after,
        )
}

/// Steers an agent towards its resultant goal: turns the goal into a
/// force along the agent's nose and a turn rate, within the given limits.
pub fn v1<K: Arithmetic>(
    boid: &mut Entity<K::V, K::S>,
    goal: ResultantGoal<K::V>,
    max_ang_vel: K::S,
    max_force: K::S,
)
    ensures
        steered::<K>(*old(boid), goal.0, max_ang_vel, max_force, *final(boid)),
{
    let g = goal.0;
    let angle = steering_angle::<K>(&g, &boid.rot);
    let angle_coefficient = K::angle_coefficient(angle);
    let force_coefficient = K::force_coefficient(angle);

    let magnitude = K::thrust(force_coefficient, g, max_force);
    let force = collinear_force::<K>(boid.rot, magnitude);
    let ang_vel = K::times(angle_coefficient, max_ang_vel);

    add_force::<K>(boid, force);
    boid.angular_vel = ang_vel;
    boid.area = K::effort_area(force_coefficient);
}

/// Steering pushes along the nose only: whatever the goal, the force that
/// `v1` adds to the gathered forces is a force along the agent's heading,
/// and for an agent without a heading it is that zero heading itself.
pub proof fn lemma_steering_pushes_along_the_heading<K: Arithmetic>(
    before: Entity<K::V, K::S>,
    g: K::V,
    max_ang_vel: K::S,
    max_force: K::S,
    after: Entity<K::V, K::S>,
)
    requires
        steered::<K>(before, g, max_ang_vel, max_force, after),
    ensures
        exists|magnitude: K::S, force: K::V| #[trigger]
            collinear::<K>(before.rot, magnitude, force) && call_ensures(
                K::plus,
                (before.resultant_force, force),
                after.resultant_force,
            ) && (call_ensures(K::is_zero, (before.rot,), false) || force == before.rot),
{
    let angle = choose|angle: K::S| #[trigger]
        steers::<K>(g, before.rot, angle) && steered_by::<K>(
            before,
            g,
            angle,
            max_ang_vel,
            max_force,
            after,
        );
    let (angle_coefficient, force_coefficient, magnitude, force) = choose|
        angle_coefficient: K::S,
        force_coefficient: K::S,
        magnitude: K::S,
        force: K::V,
    |
        {
            &&& #[trigger] call_ensures(K::angle_coefficient, (angle,), angle_coefficient)
            &&& #[trigger] call_ensures(K::force_coefficient, (angle,), force_coefficient)
            &&& #[trigger] call_ensures(K::thrust, (force_coefficient, g, max_force), magnitude)
            &&& #[trigger] collinear::<K>(before.rot, magnitude, force)
            &&& call_ensures(K::plus, (before.resultant_force, force), after.resultant_force)
            &&& call_ensures(K::times, (angle_coefficient, max_ang_vel), after.angular_vel)
            &&& call_ensures(K::effort_area, (force_coefficient,), after.area)
            &&& after.pos == before.pos
            &&& after.vel == before.vel
            &&& after.rot == before.rot
            &&& after.mass == before.mass
        };
    assert(collinear::<K>(before.rot, magnitude, force));
}

/// In this arithmetic an angle less itself is the zero angle, and the zero
/// angle is neither negative nor more than half a turn.
pub open spec fn zero_angle_is_neutral<K: Arithmetic>() -> bool {
    &&& forall|a: K::S, d: K::S| #[trigger]
        call_ensures(K::difference, (a, a), d) ==> call_ensures(K::nought, (), d)
    &&& forall|zero: K::S|
        call_ensures(K::nought, (), zero) ==> !#[trigger] call_ensures(K::is_negative, (zero,), true)
    &&& forall|zero: K::S|
        call_ensures(K::nought, (), zero) ==> !#[trigger] call_ensures(K::over_half_turn, (zero,), true)
}

/// An agent that faces its goal exactly is steered by the zero angle: in a
/// single-valued arithmetic in which the zero angle is neutral, a goal that
/// equals the heading gives the turn rate and the thrust that the zero
/// angle commands.
pub proof fn lemma_facing_the_goal<K: Arithmetic>(
    before: Entity<K::V, K::S>,
    max_ang_vel: K::S,
    max_force: K::S,
    after: Entity<K::V, K::S>,
)
    requires
        single_valued::<K>(),
        zero_angle_is_neutral::<K>(),
        steered::<K>(before, before.rot, max_ang_vel, max_force, after),
    ensures
        exists|zero: K::S| #[trigger]
            call_ensures(K::nought, (), zero) && steered_by::<K>(
                before,
                before.rot,
                zero,
                max_ang_vel,
                max_force,
                after,
            ),
{
    let rot = before.rot;
    let angle = choose|angle: K::S| #[trigger]
        steers::<K>(rot, rot, angle) && steered_by::<K>(
            before,
            rot,
            angle,
            max_ang_vel,
            max_force,
            after,
        );
    let cw_angle = choose|cw_angle: K::S| #[trigger]
        clockwise_between::<K>(rot, rot, cw_angle) && {
            ||| call_ensures(K::over_half_turn, (cw_angle,), true) && exists|rest: K::S| #[trigger]
                call_ensures(K::explement, (cw_angle,), rest) && call_ensures(K::negate, (rest,), angle)
            ||| call_ensures(K::over_half_turn, (cw_angle,), false) && angle == cw_angle
        };
    let (vec_angle, base_angle, adjusted) = choose|vec_angle: K::S, base_angle: K::S, adjusted: K::S|
        {
            &&& clockwise_from_up::<K>(rot, vec_angle)
            &&& clockwise_from_up::<K>(rot, base_angle)
            &&& #[trigger] call_ensures(K::difference, (vec_angle, base_angle), adjusted)
            &&& {
                ||| call_ensures(K::is_negative, (adjusted,), true) && call_ensures(
                    K::add_turn,
                    (adjusted,),
                    cw_angle,
                )
                ||| call_ensures(K::is_negative, (adjusted,), false) && cw_angle == adjusted
            }
        };
    lemma_clockwise_from_up_once::<K>(rot, vec_angle, base_angle);
    assert(call_ensures(K::nought, (), adjusted));
    assert(cw_angle == adjusted);
    assert(angle == cw_angle);
}

} // verus!
