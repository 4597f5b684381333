use boids::arithmetic::Arithmetic;
use boids::behaviours::{bound, center_of_mass, keep_distance, same_direction, static_goal, Wall};
use boids::config::Config;
use boids::frame::{step_frame, step_world};
use boids::generation::random_world;
use boids::goals::{
    origin_at_boid, region_of_influence, resultant_goal, Goal, InfluenceRadius, ResultantGoal,
};
use boids::physics::{add_force, collinear_force, drag_force, step_entity, Entity};
use boids::strategies::{clockwise_angle_relative_to, steering_angle, v1};
use boids::utilities::{clockwise_angle_from_j_hat, mean, sum};
use boids::world::World;
use nalgebra_glm as na;
use rand::Rng;
use std::f32::consts::{E, PI};

const TAU: f32 = 2.0 * PI;

/// Single-precision arithmetic on plane vectors.
struct Floats;

impl Arithmetic for Floats {
    type V = na::Vec2;
    type S = f32;

    fn zero() -> na::Vec2 {
        na::vec2(0.0, 0.0)
    }

    fn plus(a: na::Vec2, b: na::Vec2) -> na::Vec2 {
        a + b
    }

    fn minus(a: na::Vec2, b: na::Vec2) -> na::Vec2 {
        a - b
    }

    fn over(v: na::Vec2, s: f32) -> na::Vec2 {
        v / s
    }

    fn over_count(v: na::Vec2, n: usize) -> na::Vec2 {
        v / n as f32
    }

    fn is_zero(v: na::Vec2) -> bool {
        v == na::vec2(0.0, 0.0)
    }

    fn normalize(v: na::Vec2) -> na::Vec2 {
        na::normalize(&v)
    }

    fn along(v: na::Vec2, magnitude: f32) -> na::Vec2 {
        magnitude * na::normalize(&v)
    }

    fn within(v: na::Vec2, radius: f32) -> bool {
        na::magnitude(&v) <= radius
    }

    fn times(a: f32, b: f32) -> f32 {
        a * b
    }

    fn beyond(v: na::Vec2, threshold: f32) -> bool {
        na::magnitude(&v) > threshold
    }

    fn push_away(pos: na::Vec2, radius: f32) -> na::Vec2 {
        (radius - na::magnitude(&pos)) * na::normalize(&-pos)
    }

    fn wall_distance(pos: na::Vec2, dimensions: na::Vec2, min_dist: f32, wall: Wall) -> f32 {
        match wall {
            Wall::Right => (dimensions.x - pos.x) / min_dist,
            Wall::Left => (-dimensions.x - pos.x).abs() / min_dist,
            Wall::Top => (dimensions.y - pos.y) / min_dist,
            Wall::Bottom => (-dimensions.y - pos.y).abs() / min_dist,
        }
    }

    fn near(distance: f32) -> bool {
        distance < 1.0
    }

    fn inward(distance: f32, wall: Wall) -> na::Vec2 {
        match wall {
            Wall::Right => na::vec2(-(1.0 - distance), 0.0),
            Wall::Left => na::vec2(1.0 - distance, 0.0),
            Wall::Top => na::vec2(0.0, -(1.0 - distance)),
            Wall::Bottom => na::vec2(0.0, 1.0 - distance),
        }
    }

    fn nought() -> f32 {
        0.0
    }

    fn angle_from_j_hat(v: na::Vec2) -> f32 {
        v.angle(&na::vec2(0.0, 1.0))
    }

    fn points_left(v: na::Vec2) -> bool {
        v.x < 0.0
    }

    fn explement(angle: f32) -> f32 {
        TAU - angle
    }

    fn difference(a: f32, b: f32) -> f32 {
        a - b
    }

    fn is_negative(a: f32) -> bool {
        a < 0.0
    }

    fn add_turn(a: f32) -> f32 {
        TAU + a
    }

    fn over_half_turn(a: f32) -> bool {
        a > PI
    }

    fn negate(a: f32) -> f32 {
        -a
    }

    fn angle_coefficient(angle: f32) -> f32 {
        -(angle / PI)
    }

    fn force_coefficient(angle: f32) -> f32 {
        (PI - angle.abs()) / PI
    }

    fn thrust(force_coefficient: f32, goal: na::Vec2, max_force: f32) -> f32 {
        E.powf(6.0 * (force_coefficient - 1.0)) * na::magnitude(&goal) * max_force
    }

    fn effort_area(force_coefficient: f32) -> f32 {
        0.25 + (1.0 - force_coefficient) * 2.0
    }

    fn alignment(vel: na::Vec2, rot: na::Vec2) -> f32 {
        na::normalize_dot(&vel, &rot)
    }

    fn drag_area(area: f32, alignment: f32) -> f32 {
        area + (4.0 * (1.0 - alignment))
    }

    fn drag_magnitude(area: f32, c: f32, vel: na::Vec2) -> f32 {
        0.5 * area * c * -na::magnitude2(&vel)
    }

    fn integrate(value: na::Vec2, rate_of_change: na::Vec2, delta_time: f32) -> na::Vec2 {
        value + (rate_of_change * delta_time)
    }

    fn clamp_to_arena(pos: na::Vec2) -> na::Vec2 {
        let mut pos = pos;
        if pos.x > 1.0 {
            pos.x = 1.0
        }
        if pos.x < -1.0 {
            pos.x = -1.0
        }
        if pos.y > 1.0 {
            pos.y = 1.0
        }
        if pos.y < -1.0 {
            pos.y = -1.0
        }
        pos
    }

    fn rotate(rot: na::Vec2, angular_vel: f32, delta_time: f32) -> na::Vec2 {
        na::rotate_vec2(&rot, angular_vel * delta_time)
    }

    fn default_entity() -> Boid {
        Entity {
            pos: na::vec2(0.0, 0.0),
            vel: na::vec2(0.0, 0.0),
            angular_vel: 0.0,
            rot: na::vec2(1.0, 0.0),
            mass: 1.0,
            area: 0.25,
            resultant_force: na::vec2(0.0, 0.0),
        }
    }

    fn random_position(min: na::Vec2, max: na::Vec2) -> na::Vec2 {
        let mut rng = rand::thread_rng();
        na::vec2(rng.gen_range(min.x, max.x), rng.gen_range(min.y, max.y))
    }

    fn random_heading() -> na::Vec2 {
        let mut rng = rand::thread_rng();
        na::rotate_vec2(&na::vec2(1.0, 0.0), rng.gen_range(0.0, TAU))
    }
}

type Boid = Entity<na::Vec2, f32>;
type GoalFn = Box<dyn Fn(&Boid, &[&Boid]) -> Goal<na::Vec2>>;

fn boid_at(x: f32, y: f32) -> Boid {
    Entity { pos: na::vec2(x, y), ..Floats::default_entity() }
}

fn config() -> Config<f32> {
    Config {
        influence_radius: 2.0,
        drag_coefficient: 0.5,
        population: 3,
        max_force: 4.0,
        max_ang_vel: 8.0,
        behaviour_active: true,
    }
}

fn close(a: f32, b: f32, eps: f32) -> bool {
    (a - b).abs() < eps
}

fn count_neighbours() -> GoalFn {
    Box::new(|_, neighbours| Goal(na::vec2(neighbours.len() as f32, 0.0)))
}

fn flock_goals(radius: f32) -> Vec<GoalFn> {
    let influence_radius = InfluenceRadius(radius);
    vec![
        Box::new(move |_, world| center_of_mass::<Floats>(world, influence_radius)),
        Box::new(move |_, world| keep_distance::<Floats>(world, influence_radius, 0.025)),
        Box::new(move |_, world| Goal(same_direction::<Floats>(world, influence_radius).0 * 1.5)),
        Box::new(|boid, _| Goal(bound::<Floats>(boid, na::vec2(1.0, 1.0), 0.3).0 * 20.0)),
    ]
}

#[test]
fn test_quarter_pis() {
    let i_hat = na::vec2(1.0, 0.0);
    let j_hat = na::vec2(0.0, 1.0);
    let inv_i_hat = na::vec2(-1.0, 0.0);
    let inv_j_hat = na::vec2(0.0, -1.0);

    assert!(close(clockwise_angle_from_j_hat::<Floats>(&i_hat), PI / 2.0, 1.0e-6));
    assert!(close(clockwise_angle_from_j_hat::<Floats>(&j_hat), 0.0, 1.0e-6));
    assert!(close(clockwise_angle_from_j_hat::<Floats>(&inv_i_hat), PI + (PI / 2.0), 1.0e-6));
    assert!(close(clockwise_angle_from_j_hat::<Floats>(&inv_j_hat), PI, 1.0e-6));
}

#[test]
fn clockwise_angle_of_the_zero_vector_is_zero() {
    assert_eq!(clockwise_angle_from_j_hat::<Floats>(&na::vec2(0.0, 0.0)), 0.0);
}

#[test]
fn clockwise_angle_from_j_hat_is_bounded_and_past_half_a_turn_on_the_left() {
    for i in -10..=10 {
        for j in -10..=10 {
            let vec = na::vec2(i as f32 * 0.1, j as f32 * 0.1);
            let angle = clockwise_angle_from_j_hat::<Floats>(&vec);
            assert!(angle >= 0.0);
            assert!(angle <= 2.0 * PI);
            if vec.x <= -0.01 {
                assert!(angle > PI);
            }
        }
    }
}

#[test]
fn clockwise_angle_relative_to_wraps_into_a_full_turn() {
    let up = na::vec2(0.0, 1.0);
    let right = na::vec2(1.0, 0.0);
    assert!(close(clockwise_angle_relative_to::<Floats>(&right, &up), PI / 2.0, 1.0e-6));
    assert!(close(clockwise_angle_relative_to::<Floats>(&up, &right), 1.5 * PI, 1.0e-6));
    for i in -10..=10 {
        for j in -10..=10 {
            let vec = na::vec2(i as f32 * 0.1, j as f32 * 0.1);
            for (a, b) in [(vec, up), (up, vec)] {
                let angle = clockwise_angle_relative_to::<Floats>(&a, &b);
                assert!(angle >= 0.0);
                assert!(angle <= 2.0 * PI);
            }
            if vec.y >= 0.01 {
                assert!(clockwise_angle_relative_to::<Floats>(&vec, &right) > PI);
            }
            if vec.y <= -0.01 {
                assert!(clockwise_angle_relative_to::<Floats>(&vec, &right) < PI);
            }
        }
    }
}

#[test]
fn steering_angle_takes_the_shorter_turn() {
    let up = na::vec2(0.0, 1.0);
    let right = na::vec2(1.0, 0.0);
    let left = na::vec2(-1.0, 0.0);
    let down = na::vec2(0.0, -1.0);
    assert!(close(steering_angle::<Floats>(&right, &up), PI / 2.0, 1.0e-6));
    assert!(close(steering_angle::<Floats>(&left, &up), -PI / 2.0, 1.0e-6));
    assert!(close(steering_angle::<Floats>(&up, &up), 0.0, 1.0e-6));
    assert!(close(steering_angle::<Floats>(&down, &up), PI, 1.0e-6));
    for i in -10..=10 {
        for j in -10..=10 {
            let vec = na::vec2(i as f32 * 0.1, j as f32 * 0.1);
            let angle = steering_angle::<Floats>(&vec, &right);
            assert!(angle > -PI);
            assert!(angle <= PI);
        }
    }
}

#[test]
fn sum_and_mean_of_nothing_are_zero() {
    assert_eq!(sum::<Floats>(&[]), na::vec2(0.0, 0.0));
    assert_eq!(mean::<Floats>(&[]), na::vec2(0.0, 0.0));
}

#[test]
fn mean_is_the_sum_over_the_count() {
    let vectors = [na::vec2(1.0, 0.0), na::vec2(2.0, 3.0), na::vec2(6.0, 3.0)];
    assert_eq!(sum::<Floats>(&vectors), na::vec2(9.0, 6.0));
    assert_eq!(mean::<Floats>(&vectors), na::vec2(3.0, 2.0));
    assert_eq!(mean::<Floats>(&vectors[..1]), na::vec2(1.0, 0.0));
}

#[test]
fn origin_at_boid_moves_positions_and_nothing_else() {
    let center = boid_at(1.0, 1.0);
    let mut first = boid_at(2.0, 3.0);
    first.vel = na::vec2(0.5, -0.5);
    first.angular_vel = 0.75;
    first.mass = 2.0;
    first.area = 1.5;
    first.rot = na::vec2(0.0, 1.0);
    first.resultant_force = na::vec2(4.0, 5.0);
    let second = boid_at(0.0, 0.0);
    let local = origin_at_boid::<Floats>(&center, &[&first, &second]);
    assert_eq!(local.0.len(), 2);
    assert_eq!(local.0[0].pos, na::vec2(1.0, 2.0));
    assert_eq!(local.0[1].pos, na::vec2(-1.0, -1.0));
    assert_eq!(local.0[0].vel, na::vec2(0.5, -0.5));
    assert_eq!(local.0[0].angular_vel, 0.75);
    assert_eq!(local.0[0].mass, 2.0);
    assert_eq!(local.0[0].area, 1.5);
    assert_eq!(local.0[0].rot, na::vec2(0.0, 1.0));
    assert_eq!(local.0[0].resultant_force, na::vec2(4.0, 5.0));
    assert_eq!(first.pos, na::vec2(2.0, 3.0));
    assert!(origin_at_boid::<Floats>(&center, &[]).0.is_empty());
}

#[test]
fn region_of_influence_keeps_what_lies_within_the_radius() {
    let center = boid_at(1.0, 0.0);
    let near = boid_at(2.0, 0.0);
    let on_the_edge = boid_at(3.0, 0.0);
    let far = boid_at(3.5, 0.0);
    let behind = boid_at(-0.5, 0.0);
    let others = [&far, &near, &on_the_edge, &behind];
    let seen = region_of_influence::<Floats>(&center, &others, InfluenceRadius(2.0));
    let positions: Vec<na::Vec2> = seen.0.iter().map(|b| b.pos).collect();
    assert_eq!(positions, vec![na::vec2(1.0, 0.0), na::vec2(2.0, 0.0), na::vec2(-1.5, 0.0)]);
}

#[test]
fn test_region_of_influence() {
    let mut boids = Vec::new();
    for i in 0..4 {
        for j in 0..4 {
            boids.push(boid_at(i as f32 * 2.0 - 3.0, j as f32 * 1.9 - 3.0));
        }
    }
    let world = World(boids);
    for radius in [0.1f32, 1.0, 1.5, 2.0, 2.9] {
        let origin_boid = &world.0[0];
        let World(influential_boids) =
            region_of_influence::<Floats>(origin_boid, &world.to_refs(), InfluenceRadius(radius));
        let expected =
            world.0.iter().filter(|b| na::magnitude(&(b.pos - origin_boid.pos)) <= radius).count();
        assert_eq!(influential_boids.len(), expected);
        for boid in influential_boids {
            assert!(na::magnitude(&boid.pos) <= radius)
        }
    }
}

#[test]
fn region_of_influence_of_a_lonely_agent_is_empty() {
    let center = boid_at(0.0, 0.0);
    let far = boid_at(5.0, 5.0);
    assert!(region_of_influence::<Floats>(&center, &[&far], InfluenceRadius(1.0)).0.is_empty());
    assert!(region_of_influence::<Floats>(&center, &[], InfluenceRadius(1.0)).0.is_empty());
}

#[test]
fn test_center_of_mass() {
    let origin_boid = boid_at(0.0, 0.0);
    let mut boids = Vec::new();
    for i in 0..9 {
        for j in 0..9 {
            boids.push(boid_at(i as f32 * 0.5 - 2.0, j as f32 * 0.45 - 1.5));
        }
    }
    for n in [0usize, 1, 5, 40, 81] {
        let world = World(boids[..n].to_vec());
        let influential_boids =
            region_of_influence::<Floats>(&origin_boid, &world.to_refs(), InfluenceRadius(2.0));
        let Goal(goal) = center_of_mass::<Floats>(&influential_boids.to_refs(), InfluenceRadius(2.0));
        assert!(na::magnitude(&goal) <= 1.0);
    }
}

#[test]
fn center_of_mass_is_the_mean_position_over_the_radius() {
    let a = boid_at(1.0, 0.0);
    let b = boid_at(0.0, 1.0);
    let Goal(goal) = center_of_mass::<Floats>(&[&a, &b], InfluenceRadius(2.0));
    assert_eq!(goal, na::vec2(0.25, 0.25));
    let Goal(alone) = center_of_mass::<Floats>(&[], InfluenceRadius(2.0));
    assert_eq!(alone, na::vec2(0.0, 0.0));
}

#[test]
fn same_direction_is_the_mean_heading_over_the_radius() {
    let mut a = boid_at(1.0, 0.0);
    a.rot = na::vec2(0.0, 1.0);
    let b = boid_at(5.0, 5.0);
    let Goal(goal) = same_direction::<Floats>(&[&a, &b], InfluenceRadius(2.0));
    assert_eq!(goal, na::vec2(0.25, 0.25));
    let Goal(alone) = same_direction::<Floats>(&[], InfluenceRadius(2.0));
    assert_eq!(alone, na::vec2(0.0, 0.0));
}

#[test]
fn keep_distance_sums_the_pushes_of_close_neighbours() {
    let right = boid_at(0.5, 0.0);
    let above = boid_at(0.0, 0.25);
    let far = boid_at(1.5, 0.0);
    // Radius 2, coefficient one half: the threshold is 1.
    let Goal(goal) = keep_distance::<Floats>(&[&right, &far, &above], InfluenceRadius(2.0), 0.5);
    assert_eq!(goal, na::vec2(-1.5, -1.75));
    // Two neighbours at the same place push twice as hard.
    let Goal(twice) = keep_distance::<Floats>(&[&right, &right], InfluenceRadius(2.0), 0.5);
    assert_eq!(twice, na::vec2(-3.0, 0.0));
    let Goal(nothing) = keep_distance::<Floats>(&[&far], InfluenceRadius(2.0), 0.5);
    assert_eq!(nothing, na::vec2(0.0, 0.0));
    let Goal(alone) = keep_distance::<Floats>(&[], InfluenceRadius(2.0), 0.5);
    assert_eq!(alone, na::vec2(0.0, 0.0));
}

#[test]
fn bound_pushes_inward_from_near_walls_only() {
    let dimensions = na::vec2(1.0, 1.0);
    let Goal(middle) = bound::<Floats>(&boid_at(0.0, 0.0), dimensions, 0.5);
    assert_eq!(middle, na::vec2(0.0, 0.0));
    let Goal(right) = bound::<Floats>(&boid_at(0.75, 0.0), dimensions, 0.5);
    assert_eq!(right, na::vec2(-0.5, 0.0));
    let Goal(left) = bound::<Floats>(&boid_at(-0.75, 0.0), dimensions, 0.5);
    assert_eq!(left, na::vec2(0.5, 0.0));
    let Goal(top) = bound::<Floats>(&boid_at(0.0, 0.875), dimensions, 0.5);
    assert_eq!(top, na::vec2(0.0, -0.75));
    let Goal(bottom) = bound::<Floats>(&boid_at(0.0, -0.875), dimensions, 0.5);
    assert_eq!(bottom, na::vec2(0.0, 0.75));
}

#[test]
fn bound_in_a_corner_gets_both_walls() {
    let Goal(corner) = bound::<Floats>(&boid_at(0.75, -0.875), na::vec2(1.0, 1.0), 0.5);
    assert_eq!(corner, na::vec2(-0.5, 0.75));
}

#[test]
fn static_goal_points_at_the_target_with_length_one() {
    let Goal(goal) = static_goal::<Floats>(&boid_at(1.0, 1.0), na::vec2(4.0, 5.0));
    assert!(close(goal.x, 0.6, 1.0e-6));
    assert!(close(goal.y, 0.8, 1.0e-6));
}

#[test]
fn resultant_goal_is_the_mean_over_the_goal_functions() {
    let center = boid_at(0.0, 0.0);
    let a = boid_at(1.0, 0.0);
    let b = boid_at(0.0, 1.0);
    let far = boid_at(9.0, 9.0);
    let radius = InfluenceRadius(2.0);
    let goal_functions: Vec<GoalFn> =
        vec![Box::new(move |_, world| center_of_mass::<Floats>(world, radius)), count_neighbours()];
    let ResultantGoal(goal) =
        resultant_goal::<Floats, GoalFn>(&center, &[&a, &far, &b], radius, &goal_functions);
    // Centre of mass: ((1,0) + (0,1)) / 2 / 2 = (0.25, 0.25); count: (2, 0).
    assert_eq!(goal, na::vec2(1.125, 0.125));
}

#[test]
fn resultant_goal_shows_goal_functions_the_local_frame() {
    let center = boid_at(10.0, 10.0);
    let a = boid_at(11.0, 10.0);
    let goal_functions: Vec<GoalFn> = vec![Box::new(|me, neighbours| {
        assert_eq!(me.pos, na::vec2(10.0, 10.0));
        assert_eq!(neighbours.len(), 1);
        Goal(neighbours[0].pos)
    })];
    let ResultantGoal(goal) =
        resultant_goal::<Floats, GoalFn>(&center, &[&a], InfluenceRadius(2.0), &goal_functions);
    assert_eq!(goal, na::vec2(1.0, 0.0));
}

#[test]
fn resultant_goal_without_goal_functions_is_zero() {
    let center = boid_at(0.0, 0.0);
    let a = boid_at(1.0, 0.0);
    let none: Vec<GoalFn> = vec![];
    let ResultantGoal(goal) = resultant_goal::<Floats, GoalFn>(&center, &[&a], InfluenceRadius(2.0), &none);
    assert_eq!(goal, na::vec2(0.0, 0.0));
}

#[test]
fn collinear_force_follows_the_vector_and_leaves_zero_alone() {
    let force = collinear_force::<Floats>(na::vec2(3.0, 4.0), 10.0);
    assert!(close(force.x, 6.0, 1.0e-5));
    assert!(close(force.y, 8.0, 1.0e-5));
    let none = collinear_force::<Floats>(na::vec2(0.0, 0.0), 10.0);
    assert_eq!(none, na::vec2(0.0, 0.0));
}

#[test]
fn drag_force_is_quadratic_and_against_the_velocity() {
    // Half of area 2 times coefficient 3 times speed 5 squared: 75.
    let drag = drag_force::<Floats>(2.0, 3.0, na::vec2(3.0, 4.0));
    assert!(close(drag.x, -45.0, 1.0e-4));
    assert!(close(drag.y, -60.0, 1.0e-4));
    assert_eq!(drag_force::<Floats>(2.0, 3.0, na::vec2(0.0, 0.0)), na::vec2(0.0, 0.0));
}

#[test]
fn test_drag_force() {
    let delta_time = 0.016;
    let mass = 1.0;
    for c in [0.0f32, 0.3, 1.0, 1.9] {
        for i in -4..=4 {
            for j in -4..=4 {
                let vel = na::vec2(i as f32 * 0.5, j as f32 * 0.5);
                if vel == na::vec2(0.0, 0.0) {
                    continue;
                }
                let drag = drag_force::<Floats>(1.0, c, vel);
                let new_vel = vel + ((drag / mass) * delta_time);
                assert!(close(na::angle(&vel, &new_vel), 0.0, 1e-3f32));
                assert!(na::are_collinear2d(&drag, &vel, 0.001));
                assert!(na::dot(&drag, &vel) <= 0.0);
            }
        }
    }
}

#[test]
fn add_force_gathers_and_changes_nothing_else() {
    let mut boid = boid_at(1.0, 2.0);
    boid.resultant_force = na::vec2(1.0, 1.0);
    add_force::<Floats>(&mut boid, na::vec2(0.5, -2.0));
    assert_eq!(boid.resultant_force, na::vec2(1.5, -1.0));
    assert_eq!(boid.pos, na::vec2(1.0, 2.0));
    assert_eq!(boid.vel, na::vec2(0.0, 0.0));
    assert_eq!(boid.rot, na::vec2(1.0, 0.0));
    assert_eq!(boid.mass, 1.0);
    assert_eq!(boid.area, 0.25);
    assert_eq!(boid.angular_vel, 0.0);
}

#[test]
fn step_entity_integrates_velocity_first_and_clears_the_forces() {
    let mut boid = boid_at(0.0, 0.0);
    boid.mass = 2.0;
    boid.resultant_force = na::vec2(4.0, 0.0);
    // At rest there is no drag: the acceleration is (2, 0).
    step_entity::<Floats>(&mut boid, 1.0, 0.5);
    assert_eq!(boid.vel, na::vec2(1.0, 0.0));
    assert_eq!(boid.pos, na::vec2(0.5, 0.0));
    assert_eq!(boid.resultant_force, na::vec2(0.0, 0.0));
    assert_eq!(boid.rot, na::vec2(1.0, 0.0));
    assert_eq!(boid.mass, 2.0);
    assert_eq!(boid.area, 0.25);
    assert_eq!(boid.angular_vel, 0.0);
}

#[test]
fn step_entity_applies_drag_by_the_effective_area() {
    let mut boid = boid_at(0.0, 0.0);
    boid.vel = na::vec2(2.0, 0.0);
    // Moving along the heading: area a quarter, drag 0.5 * 0.25 * 1 * 4 = 0.5.
    step_entity::<Floats>(&mut boid, 1.0, 0.5);
    assert!(close(boid.vel.x, 1.75, 1.0e-6));
    assert!(close(boid.pos.x, 0.875, 1.0e-6));
    let mut sideways = boid_at(0.0, 0.0);
    sideways.vel = na::vec2(0.0, 2.0);
    // Moving across the heading: area 4.25, drag 0.5 * 4.25 * 1 * 4 = 8.5.
    step_entity::<Floats>(&mut sideways, 1.0, 0.125);
    assert!(close(sideways.vel.y, 0.9375, 1.0e-5));
    let mut backwards = boid_at(0.0, 0.0);
    backwards.vel = na::vec2(-2.0, 0.0);
    // Moving against the heading counts as across it, not more.
    step_entity::<Floats>(&mut backwards, 1.0, 0.125);
    assert!(close(backwards.vel.x, -0.9375, 1.0e-5));
}

#[test]
fn step_entity_stops_the_position_at_the_walls_but_not_the_velocity() {
    let mut boid = boid_at(0.9, -0.9);
    boid.resultant_force = na::vec2(10.0, -10.0);
    step_entity::<Floats>(&mut boid, 0.0, 1.0);
    assert_eq!(boid.pos, na::vec2(1.0, -1.0));
    assert_eq!(boid.vel, na::vec2(10.0, -10.0));
}

#[test]
fn step_entity_turns_the_heading_and_keeps_its_length() {
    let mut boid = boid_at(0.0, 0.0);
    boid.angular_vel = PI;
    step_entity::<Floats>(&mut boid, 0.0, 0.5);
    assert!(close(boid.rot.x, 0.0, 1.0e-6));
    assert!(close(boid.rot.y, 1.0, 1.0e-6));
    assert!(close(na::magnitude(&boid.rot), 1.0, 1.0e-6));
    assert_eq!(boid.angular_vel, PI);
}

#[test]
fn v1_follows_the_control_law() {
    let rot = na::vec2(0.0, 1.0);
    // A goal a quarter turn clockwise of the heading.
    let mut boid = Entity { rot, ..Floats::default_entity() };
    v1::<Floats>(&mut boid, ResultantGoal(na::vec2(0.5, 0.0)), 1.0, 1.0);
    assert!(close(boid.angular_vel, -0.5, 1.0e-6));
    assert!(close(na::magnitude(&boid.resultant_force), 0.5 * (-3.0f32).exp(), 1.0e-6));
    assert!(close(na::angle(&boid.resultant_force, &rot), 0.0, 1e-3f32));
    assert!(close(boid.area, 1.25, 1.0e-6));
    // A goal a quarter turn the other way.
    let mut boid = Entity { rot, ..Floats::default_entity() };
    v1::<Floats>(&mut boid, ResultantGoal(na::vec2(-0.5, 0.0)), 1.0, 1.0);
    assert!(close(boid.angular_vel, 0.5, 1.0e-6));
    // A goal straight behind: a full turn command and next to no thrust.
    let mut boid = Entity { rot, ..Floats::default_entity() };
    v1::<Floats>(&mut boid, ResultantGoal(na::vec2(0.0, -1.0)), 1.0, 1.0);
    assert!(close(boid.angular_vel.abs(), 1.0, 1.0e-6));
    assert!(close(na::magnitude(&boid.resultant_force), (-6.0f32).exp(), 1.0e-6));
    assert!(na::magnitude(&boid.resultant_force) < 0.0025);
    assert!(close(na::angle(&boid.resultant_force, &rot), 0.0, 1e-3f32));
    assert!(close(boid.area, 2.25, 1.0e-6));
}

#[test]
fn v1_changes_force_turn_rate_and_area_only() {
    let mut boid = boid_at(0.25, -0.5);
    boid.vel = na::vec2(0.1, 0.2);
    boid.mass = 3.0;
    boid.resultant_force = na::vec2(1.0, 1.0);
    v1::<Floats>(&mut boid, ResultantGoal(na::vec2(1.0, 0.0)), 2.0, 3.0);
    assert_eq!(boid.pos, na::vec2(0.25, -0.5));
    assert_eq!(boid.vel, na::vec2(0.1, 0.2));
    assert_eq!(boid.rot, na::vec2(1.0, 0.0));
    assert_eq!(boid.mass, 3.0);
    // Facing the goal: full thrust along the heading, on top of what was there.
    assert!(close(boid.resultant_force.x, 4.0, 1.0e-5));
    assert!(close(boid.resultant_force.y, 1.0, 1.0e-5));
    assert!(close(boid.angular_vel, 0.0, 1.0e-6));
    assert!(close(boid.area, 0.25, 1.0e-6));
}

#[test]
fn v1_with_a_zero_heading_adds_no_force() {
    let mut boid = Entity { rot: na::vec2(0.0, 0.0), ..Floats::default_entity() };
    v1::<Floats>(&mut boid, ResultantGoal(na::vec2(0.5, 0.5)), 1.0, 1.0);
    assert_eq!(boid.resultant_force, na::vec2(0.0, 0.0));
}

#[test]
fn v1_facing_the_goal_pushes_at_full_force_and_does_not_turn() {
    for i in -5..=5 {
        for j in -5..=5 {
            let resultant_goal = na::vec2(i as f32 * 0.14, j as f32 * 0.14);
            if resultant_goal == na::vec2(0.0, 0.0) {
                continue;
            }
            for max_force in [0.01f32, 0.7, 2.0] {
                let mut boid = Entity { rot: resultant_goal, ..Floats::default_entity() };
                v1::<Floats>(&mut boid, ResultantGoal(resultant_goal), 1.5, max_force);
                assert!(close(
                    na::magnitude(&boid.resultant_force),
                    na::magnitude(&resultant_goal) * max_force,
                    1e-3f32
                ));
                assert!(close(boid.angular_vel, 0.0, 1e-3f32));
            }
        }
    }
}

#[test]
fn v1_stays_within_its_limits_and_pushes_along_the_heading() {
    for i in -5..=5 {
        for j in -5..=5 {
            let resultant_goal = na::vec2(i as f32 * 0.14, j as f32 * 0.14);
            for k in 0..16 {
                let rot_angle = k as f32 * TAU / 16.0;
                for (max_ang_vel, max_force) in [(0.01f32, 2.0f32), (1.0, 1.0), (2.0, 0.01)] {
                    let mut boid = Entity {
                        rot: na::rotate_vec2(&na::vec2(1.0, 0.0), rot_angle),
                        ..Floats::default_entity()
                    };
                    v1::<Floats>(&mut boid, ResultantGoal(resultant_goal), max_ang_vel, max_force);
                    let force = &boid.resultant_force;
                    assert!(na::magnitude(force) <= max_force);
                    assert!(na::are_collinear2d(force, &boid.rot, 0.001));
                    if force != &na::vec2(0.0, 0.0) {
                        assert!(close(na::angle(force, &boid.rot), 0.0, 1e-3f32));
                    }
                    assert!(boid.angular_vel.abs() <= max_ang_vel);
                }
            }
        }
    }
}

#[test]
fn steering_pass_reads_the_previous_snapshot_only() {
    // Each agent's area shows the angle to its only neighbour. Were the
    // first agent's new state visible to the second, nothing would differ
    // here, but the positions that the goals were taken from would: so the
    // goal functions record what they were shown.
    let world = World(vec![boid_at(0.0, 0.0), boid_at(1.0, 0.0), boid_at(5.0, 0.0)]);
    let goal_functions: Vec<GoalFn> = vec![Box::new(|me, neighbours| {
        for neighbour in neighbours {
            assert_eq!(neighbour.resultant_force, na::vec2(0.0, 0.0));
            assert_eq!(neighbour.area, 0.25);
        }
        if me.pos.x == 5.0 {
            assert!(neighbours.is_empty());
        } else {
            assert_eq!(neighbours.len(), 1);
        }
        Goal(na::vec2(0.0, 1.0))
    })];
    let next = step_world::<Floats, GoalFn>(&world, &config(), &goal_functions);
    assert_eq!(next.0.len(), 3);
    for (before, after) in world.0.iter().zip(next.0.iter()) {
        assert_eq!(after.pos, before.pos);
        assert_eq!(after.vel, before.vel);
        // A quarter turn off the goal, with the largest turn rate 8.
        assert!(close(after.angular_vel.abs(), 4.0, 1.0e-5));
        assert!(close(after.area, 1.25, 1.0e-6));
        assert!(close(after.resultant_force.x, 4.0 * 0.5 * (-3.0f32).exp() * 2.0, 1.0e-5));
    }
}

#[test]
fn integration_pass_advances_every_entity_on_its_own() {
    let mut world = World(vec![boid_at(0.0, 0.0), boid_at(0.5, 0.5)]);
    world.0[0].resultant_force = na::vec2(1.0, 0.0);
    world.0[1].resultant_force = na::vec2(0.0, -2.0);
    boids::physics::step_world::<Floats>(&mut world, 0.5, &config());
    assert_eq!(world.0.len(), 2);
    assert_eq!(world.0[0].vel, na::vec2(0.5, 0.0));
    assert_eq!(world.0[0].pos, na::vec2(0.25, 0.0));
    assert_eq!(world.0[1].vel, na::vec2(0.0, -1.0));
    assert_eq!(world.0[1].pos, na::vec2(0.5, 0.0));
    for boid in &world.0 {
        assert_eq!(boid.resultant_force, na::vec2(0.0, 0.0));
    }
}

#[test]
fn frame_steers_first_and_integrates_after() {
    let world = World(vec![boid_at(0.0, 0.0)]);
    let goal_functions: Vec<GoalFn> = vec![Box::new(|_, _| Goal(na::vec2(1.0, 0.0)))];
    let next = step_frame::<Floats, GoalFn>(world, 0.5, &config(), &goal_functions);
    // Facing the goal: the full force 4 is gathered by steering, and spent
    // by the integration that follows in the same frame.
    assert_eq!(next.0[0].resultant_force, na::vec2(0.0, 0.0));
    assert!(close(next.0[0].vel.x, 2.0, 1.0e-5));
    assert!(close(next.0[0].pos.x, 1.0, 1.0e-5));
    assert!(close(next.0[0].angular_vel, 0.0, 1.0e-6));
}

#[test]
fn frame_without_behaviour_only_integrates() {
    let mut start = boid_at(0.0, 0.0);
    start.resultant_force = na::vec2(1.0, 0.0);
    let world = World(vec![start, boid_at(0.5, 0.0)]);
    let idle = Config { behaviour_active: false, ..config() };
    let goal_functions: Vec<GoalFn> = vec![Box::new(|_, _| panic!("no goal is asked for"))];
    let next = step_frame::<Floats, GoalFn>(world, 0.5, &idle, &goal_functions);
    assert_eq!(next.0[0].vel, na::vec2(0.5, 0.0));
    assert_eq!(next.0[0].pos, na::vec2(0.25, 0.0));
    assert_eq!(next.0[0].area, 0.25);
    assert_eq!(next.0[1].pos, na::vec2(0.5, 0.0));
}

#[test]
fn frame_of_an_empty_world_is_empty() {
    let world: World<Boid> = World(vec![]);
    let next = step_frame::<Floats, GoalFn>(world, 0.016, &config(), &flock_goals(2.0));
    assert!(next.0.is_empty());
}

#[test]
fn same_input_gives_the_same_frame_bit_for_bit() {
    let mut boids = Vec::new();
    for i in 0..12 {
        let mut boid = boid_at((i as f32 * 0.37).sin(), (i as f32 * 0.91).cos());
        boid.vel = na::vec2(0.01 * i as f32, -0.02 * i as f32);
        boid.rot = na::rotate_vec2(&na::vec2(1.0, 0.0), i as f32);
        boids.push(boid);
    }
    let run = |start: Vec<Boid>| {
        let goal_functions = flock_goals(0.5);
        let settings = Config { influence_radius: 0.5, ..config() };
        let mut world = World(start);
        for _ in 0..20 {
            world = step_frame::<Floats, GoalFn>(world, 0.016, &settings, &goal_functions);
        }
        world
    };
    let first = run(boids.clone());
    let second = run(boids.clone());
    assert_eq!(first.0.len(), 12);
    assert_eq!(second.0.len(), 12);
    let mut moved = false;
    for ((a, b), start) in first.0.iter().zip(second.0.iter()).zip(boids.iter()) {
        for (x, y) in [
            (a.pos.x, b.pos.x),
            (a.pos.y, b.pos.y),
            (a.vel.x, b.vel.x),
            (a.vel.y, b.vel.y),
            (a.rot.x, b.rot.x),
            (a.rot.y, b.rot.y),
            (a.resultant_force.x, b.resultant_force.x),
            (a.resultant_force.y, b.resultant_force.y),
            (a.angular_vel, b.angular_vel),
            (a.area, b.area),
            (a.mass, b.mass),
        ] {
            assert_eq!(x.to_bits(), y.to_bits());
        }
        assert!(a.pos.x >= -1.0 && a.pos.x <= 1.0 && a.pos.y >= -1.0 && a.pos.y <= 1.0);
        moved = moved || a.pos != start.pos;
    }
    assert!(moved);
}

#[test]
fn random_world_has_the_population_asked_for() {
    let min = na::vec2(-1.0, -0.5);
    let max = na::vec2(1.0, 0.5);
    let world = random_world::<Floats>(25, min, max);
    assert_eq!(world.0.len(), 25);
    for boid in &world.0 {
        assert!(boid.pos.x >= -1.0 && boid.pos.x < 1.0);
        assert!(boid.pos.y >= -0.5 && boid.pos.y < 0.5);
        assert!(close(na::magnitude(&boid.rot), 1.0, 1.0e-5));
        assert_eq!(boid.vel, na::vec2(0.0, 0.0));
        assert_eq!(boid.angular_vel, 0.0);
        assert_eq!(boid.mass, 1.0);
        assert_eq!(boid.area, 0.25);
        assert_eq!(boid.resultant_force, na::vec2(0.0, 0.0));
    }
    assert!(random_world::<Floats>(0, min, max).0.is_empty());
}
