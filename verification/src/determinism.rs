use vstd::prelude::*;
use crate::arithmetic::Arithmetic;
use crate::behaviours::{
    aimed, bounded, held_back, kept_apart, mean_over_radius, present, pushed_by, repelled, walls, Wall,
};
use crate::config::Config;
use crate::frame::{all_behaved, behaved, framed};
use crate::goals::{evaluated, judged, kept, perceived, resolved, localized, Goal, ResultantGoal};
use crate::physics::{collinear, dragged, faces, integrated, stepped, Entity};
use crate::strategies::{clockwise_between, steered, steered_by, steers};
use crate::utilities::{averaged, clockwise_from_up, running, summed};
use crate::world::{pointees, sees};

verus! {

/// `f`, which takes nothing, has one answer only.
pub open spec fn nullary<R, F: Fn() -> R>(f: F) -> bool {
    forall|r1: R, r2: R| #[trigger] call_ensures(f, (), r1) && #[trigger] call_ensures(f, (), r2) ==> r1 == r2
}

/// `f` has one answer only to the same argument.
pub open spec fn unary<A, R, F: Fn(A) -> R>(f: F) -> bool {
    forall|a: A, r1: R, r2: R|
        #[trigger] call_ensures(f, (a,), r1) && #[trigger] call_ensures(f, (a,), r2) ==> r1 == r2
}

/// `f` has one answer only to the same two arguments.
pub open spec fn binary<A, B, R, F: Fn(A, B) -> R>(f: F) -> bool {
    forall|a: A, b: B, r1: R, r2: R|
        #[trigger] call_ensures(f, (a, b), r1) && #[trigger] call_ensures(f, (a, b), r2) ==> r1 == r2
}

/// `f` has one answer only to the same three arguments.
pub open spec fn ternary<A, B, C, R, F: Fn(A, B, C) -> R>(f: F) -> bool {
    forall|a: A, b: B, c: C, r1: R, r2: R|
        #[trigger] call_ensures(f, (a, b, c), r1) && #[trigger] call_ensures(f, (a, b, c), r2) ==> r1
            == r2
}

/// Every formula of the arithmetic that a frame or a goal evaluates has
/// one answer only to the same arguments: but for the random draws of the
/// initial world, the arithmetic hides no chance and no state.
pub open spec fn single_valued<K: Arithmetic>() -> bool {
    &&& nullary(K::zero)
    &&& binary(K::plus)
    &&& binary(K::minus)
    &&& binary(K::over)
    &&& binary(K::over_count)
    &&& unary(K::is_zero)
    &&& unary(K::normalize)
    &&& binary(K::along)
    &&& binary(K::within)
    &&& binary(K::times)
    &&& nullary(K::nought)
    &&& unary(K::angle_from_j_hat)
    &&& unary(K::points_left)
    &&& unary(K::explement)
    &&& binary(K::difference)
    &&& unary(K::is_negative)
    &&& unary(K::add_turn)
    &&& unary(K::over_half_turn)
    &&& unary(K::negate)
    &&& unary(K::angle_coefficient)
    &&& unary(K::force_coefficient)
    &&& ternary(K::thrust)
    &&& unary(K::effort_area)
    &&& binary(K::alignment)
    &&& binary(K::drag_area)
    &&& ternary(K::drag_magnitude)
    &&& ternary(K::integrate)
    &&& unary(K::clamp_to_arena)
    &&& ternary(K::rotate)
    &&& binary(K::beyond)
    &&& binary(K::push_away)
    &&& forall|pos: K::V, dimensions: K::V, min_dist: K::S, wall: Wall, r1: K::S, r2: K::S|
        #[trigger] call_ensures(K::wall_distance, (pos, dimensions, min_dist, wall), r1)
            && #[trigger] call_ensures(K::wall_distance, (pos, dimensions, min_dist, wall), r2) ==> r1
            == r2
    &&& unary(K::near)
    &&& binary(K::inward)
}

/// `f` answers with one goal only when it is shown the same agent and the
/// same neighbours, wherever those neighbours are stored.
pub open spec fn single_valued_goal<V, S, F: Fn(&Entity<V, S>, &[&Entity<V, S>]) -> Goal<V>>(
    f: F,
) -> bool {
    forall|boid: Entity<V, S>, n1: &[&Entity<V, S>], n2: &[&Entity<V, S>], g1: Goal<V>, g2: Goal<V>|
        pointees(n1@) == pointees(n2@) && #[trigger] call_ensures(f, (&boid, n1), g1)
            && #[trigger] call_ensures(f, (&boid, n2), g2) ==> g1 == g2
}

/// The same vectors have one sum only.
pub proof fn lemma_summed_once<K: Arithmetic>(vectors: Seq<K::V>, total1: K::V, total2: K::V)
    requires
        single_valued::<K>(),
        summed::<K>(vectors, total1),
        summed::<K>(vectors, total2),
    ensures
        total1 == total2,
{
    let sums1 = choose|sums: Seq<K::V>| #[trigger] running::<K>(vectors, sums) && sums.last() == total1;
    let sums2 = choose|sums: Seq<K::V>| #[trigger] running::<K>(vectors, sums) && sums.last() == total2;
    lemma_running_once::<K>(vectors, sums1, sums2, vectors.len() as int);
}

proof fn lemma_running_once<K: Arithmetic>(vectors: Seq<K::V>, sums1: Seq<K::V>, sums2: Seq<K::V>, upto: int)
    requires
        single_valued::<K>(),
        running::<K>(vectors, sums1),
        running::<K>(vectors, sums2),
        0 <= upto <= vectors.len(),
    ensures
        sums1[upto] == sums2[upto],
    decreases upto,
{
    if upto > 0 {
        lemma_running_once::<K>(vectors, sums1, sums2, upto - 1);
        assert(call_ensures(K::plus, (sums1[upto - 1], vectors[upto - 1]), sums1[upto - 1 + 1]));
        assert(call_ensures(K::plus, (sums2[upto - 1], vectors[upto - 1]), sums2[upto - 1 + 1]));
    }
}

/// The same vectors have one mean only.
pub proof fn lemma_averaged_once<K: Arithmetic>(vectors: Seq<K::V>, mean1: K::V, mean2: K::V)
    requires
        single_valued::<K>(),
        averaged::<K>(vectors, mean1),
        averaged::<K>(vectors, mean2),
    ensures
        mean1 == mean2,
{
    if vectors.len() > 0 {
        let total1 = choose|total: K::V| #[trigger]
            summed::<K>(vectors, total) && call_ensures(
                K::over_count,
                (total, vectors.len() as usize),
                mean1,
            );
        let total2 = choose|total: K::V| #[trigger]
            summed::<K>(vectors, total) && call_ensures(
                K::over_count,
                (total, vectors.len() as usize),
                mean2,
            );
        lemma_summed_once::<K>(vectors, total1, total2);
    }
}

/// The same vectors have one mean over the same radius only.
pub proof fn lemma_mean_over_radius_once<K: Arithmetic>(
    vectors: Seq<K::V>,
    radius: K::S,
    goal1: Goal<K::V>,
    goal2: Goal<K::V>,
)
    requires
        single_valued::<K>(),
        mean_over_radius::<K>(vectors, radius, goal1),
        mean_over_radius::<K>(vectors, radius, goal2),
    ensures
        goal1 == goal2,
{
    let middle1 = choose|middle: K::V| #[trigger]
        averaged::<K>(vectors, middle) && call_ensures(K::over, (middle, radius), goal1.0);
    let middle2 = choose|middle: K::V| #[trigger]
        averaged::<K>(vectors, middle) && call_ensures(K::over, (middle, radius), goal2.0);
    lemma_averaged_once::<K>(vectors, middle1, middle2);
}

/// Distance is kept from the same neighbours in one way only.
pub proof fn lemma_kept_apart_once<K: Arithmetic>(
    radius: K::S,
    distance_coefficient: K::S,
    boids: Seq<Entity<K::V, K::S>>,
    goal1: Goal<K::V>,
    goal2: Goal<K::V>,
)
    requires
        single_valued::<K>(),
        kept_apart::<K>(radius, distance_coefficient, boids, goal1),
        kept_apart::<K>(radius, distance_coefficient, boids, goal2),
    ensures
        goal1 == goal2,
{
    let (threshold1, pushes1, sums1) = choose|threshold: K::S, pushes: Seq<K::V>, sums: Seq<K::V>|
        {
            &&& call_ensures(K::times, (radius, distance_coefficient), threshold)
            &&& #[trigger] repelled::<K>(radius, threshold, boids, pushes)
            &&& #[trigger] running::<K>(pushes, sums)
            &&& goal1.0 == sums.last()
        };
    let (threshold2, pushes2, sums2) = choose|threshold: K::S, pushes: Seq<K::V>, sums: Seq<K::V>|
        {
            &&& call_ensures(K::times, (radius, distance_coefficient), threshold)
            &&& #[trigger] repelled::<K>(radius, threshold, boids, pushes)
            &&& #[trigger] running::<K>(pushes, sums)
            &&& goal2.0 == sums.last()
        };
    assert forall|i: int| 0 <= i < boids.len() implies pushes1[i] == pushes2[i] by {
        assert(pushed_by::<K>(radius, threshold1, boids[i].pos, pushes1[i]));
        assert(pushed_by::<K>(radius, threshold1, boids[i].pos, pushes2[i]));
    }
    assert(pushes1 =~= pushes2);
    lemma_running_once::<K>(pushes1, sums1, sums2, pushes1.len() as int);
}

/// An agent at the same place is held back from the same walls in one way
/// only.
pub proof fn lemma_bounded_once<K: Arithmetic>(
    pos: K::V,
    dimensions: K::V,
    min_dist: K::S,
    goal1: Goal<K::V>,
    goal2: Goal<K::V>,
)
    requires
        single_valued::<K>(),
        bounded::<K>(pos, dimensions, min_dist, goal1),
        bounded::<K>(pos, dimensions, min_dist, goal2),
    ensures
        goal1 == goal2,
{
    let (pushes1, sums1) = choose|pushes: Seq<Option<K::V>>, sums: Seq<K::V>|
        {
            &&& pushes.len() == 4
            &&& forall|w: int|
                0 <= w < 4 ==> held_back::<K>(pos, dimensions, min_dist, walls()[w], #[trigger] pushes[w])
            &&& #[trigger] running::<K>(present(pushes), sums)
            &&& goal1.0 == sums.last()
        };
    let (pushes2, sums2) = choose|pushes: Seq<Option<K::V>>, sums: Seq<K::V>|
        {
            &&& pushes.len() == 4
            &&& forall|w: int|
                0 <= w < 4 ==> held_back::<K>(pos, dimensions, min_dist, walls()[w], #[trigger] pushes[w])
            &&& #[trigger] running::<K>(present(pushes), sums)
            &&& goal2.0 == sums.last()
        };
    assert forall|w: int| 0 <= w < 4 implies pushes1[w] == pushes2[w] by {
        assert(held_back::<K>(pos, dimensions, min_dist, walls()[w], pushes1[w]));
        assert(held_back::<K>(pos, dimensions, min_dist, walls()[w], pushes2[w]));
    }
    assert(pushes1 =~= pushes2);
    lemma_running_once::<K>(present(pushes1), sums1, sums2, present(pushes1).len() as int);
}

/// An agent aims at the same point in one way only.
pub proof fn lemma_aimed_once<K: Arithmetic>(pos: K::V, target: K::V, goal1: Goal<K::V>, goal2: Goal<K::V>)
    requires
        single_valued::<K>(),
        aimed::<K>(pos, target, goal1),
        aimed::<K>(pos, target, goal2),
    ensures
        goal1 == goal2,
{
}

/// An agent has one neighbourhood only among the same others.
pub proof fn lemma_perceived_once<K: Arithmetic>(
    radius: K::S,
    boid: Entity<K::V, K::S>,
    others: Seq<Entity<K::V, K::S>>,
    seen1: Seq<Entity<K::V, K::S>>,
    seen2: Seq<Entity<K::V, K::S>>,
)
    requires
        single_valued::<K>(),
        perceived::<K>(radius, boid, others, seen1),
        perceived::<K>(radius, boid, others, seen2),
    ensures
        seen1 == seen2,
{
    let (local1, keep1) = choose|local: Seq<Entity<K::V, K::S>>, keep: Seq<bool>|
        localized::<K>(boid, others, local) && judged::<K>(radius, local, keep) && seen1
            == #[trigger] kept(local, keep);
    let (local2, keep2) = choose|local: Seq<Entity<K::V, K::S>>, keep: Seq<bool>|
        localized::<K>(boid, others, local) && judged::<K>(radius, local, keep) && seen2
            == #[trigger] kept(local, keep);
    assert forall|i: int| 0 <= i < others.len() implies local1[i] == local2[i] by {
        assert(call_ensures(K::minus, (others[i].pos, boid.pos), local1[i].pos));
        assert(call_ensures(K::minus, (others[i].pos, boid.pos), local2[i].pos));
    }
    assert(local1 =~= local2);
    assert forall|i: int| 0 <= i < local1.len() implies keep1[i] == keep2[i] by {
        assert(call_ensures(K::within, (local1[i].pos, radius), keep1[i]));
        assert(call_ensures(K::within, (local1[i].pos, radius), keep2[i]));
    }
    assert(keep1 =~= keep2);
}

/// An agent has one resultant goal only among the same others.
pub proof fn lemma_resolved_once<
    K: Arithmetic,
    F: Fn(&Entity<K::V, K::S>, &[&Entity<K::V, K::S>]) -> Goal<K::V>,
>(
    goal_functions: Seq<F>,
    radius: K::S,
    boid: Entity<K::V, K::S>,
    others: Seq<Entity<K::V, K::S>>,
    goal1: ResultantGoal<K::V>,
    goal2: ResultantGoal<K::V>,
)
    requires
        single_valued::<K>(),
        forall|j: int| 0 <= j < goal_functions.len() ==> single_valued_goal(#[trigger] goal_functions[j]),
        resolved::<K, F>(goal_functions, radius, boid, others, goal1),
        resolved::<K, F>(goal_functions, radius, boid, others, goal2),
    ensures
        goal1 == goal2,
{
    let (seen1, goals1) = choose|seen: Seq<Entity<K::V, K::S>>, goals: Seq<K::V>|
        perceived::<K>(radius, boid, others, seen) && #[trigger] evaluated(
            goal_functions,
            boid,
            seen,
            goals,
        ) && averaged::<K>(goals, goal1.0);
    let (seen2, goals2) = choose|seen: Seq<Entity<K::V, K::S>>, goals: Seq<K::V>|
        perceived::<K>(radius, boid, others, seen) && #[trigger] evaluated(
            goal_functions,
            boid,
            seen,
            goals,
        ) && averaged::<K>(goals, goal2.0);
    lemma_perceived_once::<K>(radius, boid, others, seen1, seen2);
    assert forall|j: int| 0 <= j < goal_functions.len() implies goals1[j] == goals2[j] by {
        let f = goal_functions[j];
        assert(single_valued_goal(f));
        assert(sees(f, boid, seen1, Goal(goals1[j])));
        assert(sees(f, boid, seen1, Goal(goals2[j])));
        let n1 = choose|rest: &[&Entity<K::V, K::S>]| #[trigger]
            pointees(rest@) == seen1 && call_ensures(f, (&boid, rest), Goal(goals1[j]));
        let n2 = choose|rest: &[&Entity<K::V, K::S>]| #[trigger]
            pointees(rest@) == seen1 && call_ensures(f, (&boid, rest), Goal(goals2[j]));
        assert(Goal(goals1[j]) == Goal(goals2[j]));
    }
    assert(goals1 =~= goals2);
    lemma_averaged_once::<K>(goals1, goal1.0, goal2.0);
}

/// A vector has one clockwise angle only from the upward direction.
pub proof fn lemma_clockwise_from_up_once<K: Arithmetic>(vec: K::V, angle1: K::S, angle2: K::S)
    requires
        single_valued::<K>(),
        clockwise_from_up::<K>(vec, angle1),
        clockwise_from_up::<K>(vec, angle2),
    ensures
        angle1 == angle2,
{
}

/// Two vectors have one clockwise angle only between them.
pub proof fn lemma_clockwise_between_once<K: Arithmetic>(vec: K::V, base: K::V, angle1: K::S, angle2: K::S)
    requires
        single_valued::<K>(),
        clockwise_between::<K>(vec, base, angle1),
        clockwise_between::<K>(vec, base, angle2),
    ensures
        angle1 == angle2,
{
    let (v1, b1, a1) = choose|vec_angle: K::S, base_angle: K::S, adjusted: K::S|
        {
            &&& clockwise_from_up::<K>(vec, vec_angle)
            &&& clockwise_from_up::<K>(base, base_angle)
            &&& #[trigger] call_ensures(K::difference, (vec_angle, base_angle), adjusted)
            &&& {
                ||| call_ensures(K::is_negative, (adjusted,), true) && call_ensures(
                    K::add_turn,
                    (adjusted,),
                    angle1,
                )
                ||| call_ensures(K::is_negative, (adjusted,), false) && angle1 == adjusted
            }
        };
    let (v2, b2, a2) = choose|vec_angle: K::S, base_angle: K::S, adjusted: K::S|
        {
            &&& clockwise_from_up::<K>(vec, vec_angle)
            &&& clockwise_from_up::<K>(base, base_angle)
            &&& #[trigger] call_ensures(K::difference, (vec_angle, base_angle), adjusted)
            &&& {
                ||| call_ensures(K::is_negative, (adjusted,), true) && call_ensures(
                    K::add_turn,
                    (adjusted,),
                    angle2,
                )
                ||| call_ensures(K::is_negative, (adjusted,), false) && angle2 == adjusted
            }
        };
    lemma_clockwise_from_up_once::<K>(vec, v1, v2);
    lemma_clockwise_from_up_once::<K>(base, b1, b2);
}

/// A heading and a goal have one steering angle only.
pub proof fn lemma_steers_once<K: Arithmetic>(rot: K::V, goal: K::V, angle1: K::S, angle2: K::S)
    requires
        single_valued::<K>(),
        steers::<K>(rot, goal, angle1),
        steers::<K>(rot, goal, angle2),
    ensures
        angle1 == angle2,
{
    let cw1 = choose|cw_angle: K::S| #[trigger]
        clockwise_between::<K>(rot, goal, cw_angle) && {
            ||| call_ensures(K::over_half_turn, (cw_angle,), true) && exists|rest: K::S| #[trigger]
                call_ensures(K::explement, (cw_angle,), rest) && call_ensures(K::negate, (rest,), angle1)
            ||| call_ensures(K::over_half_turn, (cw_angle,), false) && angle1 == cw_angle
        };
    let cw2 = choose|cw_angle: K::S| #[trigger]
        clockwise_between::<K>(rot, goal, cw_angle) && {
            ||| call_ensures(K::over_half_turn, (cw_angle,), true) && exists|rest: K::S| #[trigger]
                call_ensures(K::explement, (cw_angle,), rest) && call_ensures(K::negate, (rest,), angle2)
            ||| call_ensures(K::over_half_turn, (cw_angle,), false) && angle2 == cw_angle
        };
    lemma_clockwise_between_once::<K>(rot, goal, cw1, cw2);
}

/// An agent is steered towards the same goal in one way only.
pub proof fn lemma_steered_once<K: Arithmetic>(
    before: Entity<K::V, K::S>,
    g: K::V,
    max_ang_vel: K::S,
    max_force: K::S,
    after1: Entity<K::V, K::S>,
    after2: Entity<K::V, K::S>,
)
    requires
        single_valued::<K>(),
        steered::<K>(before, g, max_ang_vel, max_force, after1),
        steered::<K>(before, g, max_ang_vel, max_force, after2),
    ensures
        after1 == after2,
{
    let angle1 = choose|angle: K::S| #[trigger]
        steers::<K>(g, before.rot, angle) && steered_by::<K>(
            before,
            g,
            angle,
            max_ang_vel,
            max_force,
            after1,
        );
    let angle2 = choose|angle: K::S| #[trigger]
        steers::<K>(g, before.rot, angle) && steered_by::<K>(
            before,
            g,
            angle,
            max_ang_vel,
            max_force,
            after2,
        );
    lemma_steers_once::<K>(g, before.rot, angle1, angle2);
    let (ac1, fc1, m1, f1) = choose|
        angle_coefficient: K::S,
        force_coefficient: K::S,
        magnitude: K::S,
        force: K::V,
    |
        {
            &&& #[trigger] call_ensures(K::angle_coefficient, (angle1,), angle_coefficient)
            &&& #[trigger] call_ensures(K::force_coefficient, (angle1,), force_coefficient)
            &&& #[trigger] call_ensures(K::thrust, (force_coefficient, g, max_force), magnitude)
            &&& #[trigger] collinear::<K>(before.rot, magnitude, force)
            &&& call_ensures(K::plus, (before.resultant_force, force), after1.resultant_force)
            &&& call_ensures(K::times, (angle_coefficient, max_ang_vel), after1.angular_vel)
            &&& call_ensures(K::effort_area, (force_coefficient,), after1.area)
            &&& after1.pos == before.pos
            &&& after1.vel == before.vel
            &&& after1.rot == before.rot
            &&& after1.mass == before.mass
        };
    let (ac2, fc2, m2, f2) = choose|
        angle_coefficient: K::S,
        force_coefficient: K::S,
        magnitude: K::S,
        force: K::V,
    |
        {
            &&& #[trigger] call_ensures(K::angle_coefficient, (angle2,), angle_coefficient)
            &&& #[trigger] call_ensures(K::force_coefficient, (angle2,), force_coefficient)
            &&& #[trigger] call_ensures(K::thrust, (force_coefficient, g, max_force), magnitude)
            &&& #[trigger] collinear::<K>(before.rot, magnitude, force)
            &&& call_ensures(K::plus, (before.resultant_force, force), after2.resultant_force)
            &&& call_ensures(K::times, (angle_coefficient, max_ang_vel), after2.angular_vel)
            &&& call_ensures(K::effort_area, (force_coefficient,), after2.area)
            &&& after2.pos == before.pos
            &&& after2.vel == before.vel
            &&& after2.rot == before.rot
            &&& after2.mass == before.mass
        };
    assert(ac1 == ac2);
    assert(fc1 == fc2);
    assert(m1 == m2);
    assert(f1 == f2);
}

/// An entity is advanced by the same time step in one way only.
pub proof fn lemma_stepped_once<K: Arithmetic>(
    before: Entity<K::V, K::S>,
    drag_coefficient: K::S,
    delta_time: K::S,
    after1: Entity<K::V, K::S>,
    after2: Entity<K::V, K::S>,
)
    requires
        single_valued::<K>(),
        stepped::<K>(before, drag_coefficient, delta_time, after1),
        stepped::<K>(before, drag_coefficient, delta_time, after2),
    ensures
        after1 == after2,
{
    let (frontal1, area1, drag1, force1, acc1, pos1) = choose|
        frontal: K::S,
        area: K::S,
        drag: K::V,
        force: K::V,
        acceleration: K::V,
        pos: K::V,
    |
        {
            &&& faces::<K>(before.vel, before.rot, frontal)
            &&& #[trigger] call_ensures(K::drag_area, (before.area, frontal), area)
            &&& dragged::<K>(area, drag_coefficient, before.vel, drag)
            &&& #[trigger] call_ensures(K::plus, (before.resultant_force, drag), force)
            &&& #[trigger] call_ensures(K::over, (force, before.mass), acceleration)
            &&& call_ensures(K::zero, (), after1.resultant_force)
            &&& call_ensures(K::integrate, (before.vel, acceleration, delta_time), after1.vel)
            &&& #[trigger] call_ensures(K::integrate, (before.pos, after1.vel, delta_time), pos)
            &&& call_ensures(K::clamp_to_arena, (pos,), after1.pos)
            &&& call_ensures(K::rotate, (before.rot, before.angular_vel, delta_time), after1.rot)
            &&& after1.angular_vel == before.angular_vel
            &&& after1.mass == before.mass
            &&& after1.area == before.area
        };
    let (frontal2, area2, drag2, force2, acc2, pos2) = choose|
        frontal: K::S,
        area: K::S,
        drag: K::V,
        force: K::V,
        acceleration: K::V,
        pos: K::V,
    |
        {
            &&& faces::<K>(before.vel, before.rot, frontal)
            &&& #[trigger] call_ensures(K::drag_area, (before.area, frontal), area)
            &&& dragged::<K>(area, drag_coefficient, before.vel, drag)
            &&& #[trigger] call_ensures(K::plus, (before.resultant_force, drag), force)
            &&& #[trigger] call_ensures(K::over, (force, before.mass), acceleration)
            &&& call_ensures(K::zero, (), after2.resultant_force)
            &&& call_ensures(K::integrate, (before.vel, acceleration, delta_time), after2.vel)
            &&& #[trigger] call_ensures(K::integrate, (before.pos, after2.vel, delta_time), pos)
            &&& call_ensures(K::clamp_to_arena, (pos,), after2.pos)
            &&& call_ensures(K::rotate, (before.rot, before.angular_vel, delta_time), after2.rot)
            &&& after2.angular_vel == before.angular_vel
            &&& after2.mass == before.mass
            &&& after2.area == before.area
        };
    assert(frontal1 == frontal2);
    assert(area1 == area2);
    assert(drag1 == drag2);
    assert(force1 == force2);
    assert(acc1 == acc2);
    assert(after1.vel == after2.vel);
    assert(pos1 == pos2);
}

/// The frame step is a function of its input: if the arithmetic is
/// single-valued and every goal function answers the same agent and
/// neighbours with one goal only, then the same world, configuration and
/// time step give the same next world. The frame step adds no choice of
/// its own.
pub proof fn lemma_frame_step_is_a_function<
    K: Arithmetic,
    F: Fn(&Entity<K::V, K::S>, &[&Entity<K::V, K::S>]) -> Goal<K::V>,
>(
    delta_time: K::S,
    config: Config<K::S>,
    goal_functions: Seq<F>,
    world: Seq<Entity<K::V, K::S>>,
    next1: Seq<Entity<K::V, K::S>>,
    next2: Seq<Entity<K::V, K::S>>,
)
    requires
        single_valued::<K>(),
        forall|j: int| 0 <= j < goal_functions.len() ==> single_valued_goal(#[trigger] goal_functions[j]),
        framed::<K, F>(delta_time, config, goal_functions, world, next1),
        framed::<K, F>(delta_time, config, goal_functions, world, next2),
    ensures
        next1 == next2,
{
    let between1 = choose|between: Seq<Entity<K::V, K::S>>|
        {
            &&& if config.behaviour_active {
                all_behaved::<K, F>(config, goal_functions, world, between)
            } else {
                between == world
            }
            &&& #[trigger] integrated::<K>(config.drag_coefficient, delta_time, between, next1)
        };
    let between2 = choose|between: Seq<Entity<K::V, K::S>>|
        {
            &&& if config.behaviour_active {
                all_behaved::<K, F>(config, goal_functions, world, between)
            } else {
                between == world
            }
            &&& #[trigger] integrated::<K>(config.drag_coefficient, delta_time, between, next2)
        };
    if config.behaviour_active {
        assert forall|i: int| 0 <= i < world.len() implies between1[i] == between2[i] by {
            assert(behaved::<K, F>(config, goal_functions, world[i], world.remove(i), between1[i]));
            assert(behaved::<K, F>(config, goal_functions, world[i], world.remove(i), between2[i]));
            let goal1 = choose|goal: ResultantGoal<K::V>| #[trigger]
                resolved::<K, F>(
                    goal_functions,
                    config.influence_radius,
                    world[i],
                    world.remove(i),
                    goal,
                ) && steered::<K>(
                    world[i],
                    goal.0,
                    config.max_ang_vel,
                    config.max_force,
                    between1[i],
                );
            let goal2 = choose|goal: ResultantGoal<K::V>| #[trigger]
                resolved::<K, F>(
                    goal_functions,
                    config.influence_radius,
                    world[i],
                    world.remove(i),
                    goal,
                ) && steered::<K>(
                    world[i],
                    goal.0,
                    config.max_ang_vel,
                    config.max_force,
                    between2[i],
                );
            lemma_resolved_once::<K, F>(
                goal_functions,
                config.influence_radius,
                world[i],
                world.remove(i),
                goal1,
                goal2,
            );
            lemma_steered_once::<K>(
                world[i],
                goal1.0,
                config.max_ang_vel,
                config.max_force,
                between1[i],
                between2[i],
            );
        }
        assert(between1 =~= between2);
    }
    assert forall|i: int| 0 <= i < between1.len() implies next1[i] == next2[i] by {
        assert(stepped::<K>(between1[i], config.drag_coefficient, delta_time, next1[i]));
        assert(stepped::<K>(between1[i], config.drag_coefficient, delta_time, next2[i]));
        lemma_stepped_once::<K>(
            between1[i],
            config.drag_coefficient,
            delta_time,
            next1[i],
            next2[i],
        );
    }
    assert(next1 =~= next2);
}

} // verus!
