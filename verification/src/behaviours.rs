use vstd::prelude::*;
use crate::arithmetic::Arithmetic;
use crate::goals::{Goal, InfluenceRadius};
use crate::physics::Entity;
use crate::utilities::{averaged, mean, running};
use crate::world::pointees;

verus! {

/// One of the four walls of the arena.
#[derive(Clone, Copy, Debug, PartialEq, Eq)]
pub enum Wall {
    /// The wall at the largest first coordinate.
    Right,
    /// The wall at the smallest first coordinate.
    Left,
    /// The wall at the largest second coordinate.
    Top,
    /// The wall at the smallest second coordinate.
    Bottom,
}

/// The walls in the order in which an agent is held back from them.
pub open spec fn walls() -> Seq<Wall> {
    seq![Wall::Right, Wall::Left, Wall::Top, Wall::Bottom]
}

/// The positions of `boids`, in order.
pub open spec fn positions<V, S>(boids: Seq<Entity<V, S>>) -> Seq<V> {
    Seq::new(boids.len(), |i: int| boids[i].pos)
}

/// The headings of `boids`, in order.
pub open spec fn headings<V, S>(boids: Seq<Entity<V, S>>) -> Seq<V> {
    Seq::new(boids.len(), |i: int| boids[i].rot)
}

/// `goal` is a mean of `vectors`, divided by `radius`.
pub open spec fn mean_over_radius<K: Arithmetic>(vectors: Seq<K::V>, radius: K::S, goal: Goal<K::V>) -> bool {
    exists|middle: K::V| #[trigger]
        averaged::<K>(vectors, middle) && call_ensures(K::over, (middle, radius), goal.0)
}

/// Pulls towards the centre of the flock: the mean of the neighbours'
/// positions, divided by the radius. With no neighbour at all the mean is
/// the zero vector.
pub fn center_of_mass<K: Arithmetic>(boids: &[&Entity<K::V, K::S>], radius: InfluenceRadius<K::S>) -> (goal:
    Goal<K::V>)
    ensures
        mean_over_radius::<K>(positions(pointees(boids@)), radius.0, goal),
{
    let mut found: Vec<K::V> = Vec::new();
    let mut i: usize = 0;
    while i < boids.len()
        invariant
            i <= boids@.len(),
            found@.len() == i,
            forall|k: int| 0 <= k < i ==> #[trigger] found@[k] == boids@[k].pos,
        decreases boids@.len() - i,
    {
        found.push(boids[i].pos);
        i += 1;
    }
    assert(found@ =~= positions(pointees(boids@)));
    let middle = mean::<K>(found.as_slice());
    Goal(K::over(middle, radius.0))
}

/// Aligns the heading with that of the neighbours: the mean of their
/// headings, divided by the radius.
pub fn same_direction<K: Arithmetic>(boids: &[&Entity<K::V, K::S>], radius: InfluenceRadius<K::S>) -> (goal:
    Goal<K::V>)
    ensures
        mean_over_radius::<K>(headings(pointees(boids@)), radius.0, goal),
{
    let mut found: Vec<K::V> = Vec::new();
    let mut i: usize = 0;
    while i < boids.len()
        invariant
            i <= boids@.len(),
            found@.len() == i,
            forall|k: int| 0 <= k < i ==> #[trigger] found@[k] == boids@[k].rot,
        decreases boids@.len() - i,
    {
        found.push(boids[i].rot);
        i += 1;
    }
    assert(found@ =~= headings(pointees(boids@)));
    let middle = mean::<K>(found.as_slice());
    Goal(K::over(middle, radius.0))
}

/// `push` is what a neighbour at `pos` may contribute to keeping distance:
/// the zero vector if it is farther away than `threshold`, and else the
/// push away from it.
pub open spec fn pushed_by<K: Arithmetic>(radius: K::S, threshold: K::S, pos: K::V, push: K::V) -> bool {
    ||| call_ensures(K::beyond, (pos, threshold), true) && call_ensures(K::zero, (), push)
    ||| call_ensures(K::beyond, (pos, threshold), false) && call_ensures(K::push_away, (pos, radius), push)
}

/// `pushes` holds, in order, what each of `boids` may contribute to keeping
/// distance.
pub open spec fn repelled<K: Arithmetic>(
    radius: K::S,
    threshold: K::S,
    boids: Seq<Entity<K::V, K::S>>,
    pushes: Seq<K::V>,
) -> bool {
    &&& pushes.len() == boids.len()
    &&& forall|i: int|
        0 <= i < boids.len() ==> pushed_by::<K>(radius, threshold, boids[i].pos, #[trigger] pushes[i])
}

/// `goal` is a possible outcome of keeping distance from `boids`: the
/// threshold is the radius times the coefficient, and the goal is the sum,
/// in order, of what each neighbour contributes.
pub open spec fn kept_apart<K: Arithmetic>(
    radius: K::S,
    distance_coefficient: K::S,
    boids: Seq<Entity<K::V, K::S>>,
    goal: Goal<K::V>,
) -> bool {
    exists|threshold: K::S, pushes: Seq<K::V>, sums: Seq<K::V>|
        {
            &&& call_ensures(K::times, (radius, distance_coefficient), threshold)
            &&& #[trigger] repelled::<K>(radius, threshold, boids, pushes)
            &&& #[trigger] running::<K>(pushes, sums)
            &&& goal.0 == sums.last()
        }
}

/// Pushes away from neighbours that have come too close. A neighbour no
/// farther than the radius times the coefficient pushes the agent away;
/// one beyond that contributes nothing. The contributions are summed, not
/// averaged: a denser crowd pushes harder.
pub fn keep_distance<K: Arithmetic>(
    boids: &[&Entity<K::V, K::S>],
    radius: InfluenceRadius<K::S>,
    distance_coefficient: K::S,
) -> (goal: Goal<K::V>)
    ensures
        kept_apart::<K>(radius.0, distance_coefficient, pointees(boids@), goal),
{
    let ghost others = pointees(boids@);
    let adjusted_radius = K::times(radius.0, distance_coefficient);
    let mut sum = K::zero();
    let ghost mut pushes: Seq<K::V> = Seq::empty();
    let ghost mut sums: Seq<K::V> = seq![sum];
    let mut i: usize = 0;
    while i < boids.len()
        invariant
            others == pointees(boids@),
            i <= boids@.len(),
            repelled::<K>(radius.0, adjusted_radius, others.take(i as int), pushes),
            running::<K>(pushes, sums),
            sums.last() == sum,
        decreases boids@.len() - i,
    {
        assert(*boids@[i as int] == others[i as int]);
        let pos = boids[i].pos;
        let push = if K::beyond(pos, adjusted_radius) {
            K::zero()
        } else {
            K::push_away(pos, radius.0)
        };
        sum = K::plus(sum, push);
        proof {
            pushes = pushes.push(push);
            sums = sums.push(sum);
        }
        i += 1;
    }
    assert(others.take(i as int) =~= others);
    Goal(sum)
}

/// `push` is what one wall may contribute to holding an agent at `pos`
/// back: nothing if the wall is not near, and else a vector that points
/// inward from it. A wall is near when its distance, as a multiple of
/// `min_dist`, is less than one.
pub open spec fn held_back<K: Arithmetic>(
    pos: K::V,
    dimensions: K::V,
    min_dist: K::S,
    wall: Wall,
    push: Option<K::V>,
) -> bool {
    exists|distance: K::S| #[trigger]
        call_ensures(K::wall_distance, (pos, dimensions, min_dist, wall), distance) && match push {
            Some(inward) => call_ensures(K::near, (distance,), true) && call_ensures(
                K::inward,
                (distance, wall),
                inward,
            ),
            None => call_ensures(K::near, (distance,), false),
        }
}

/// The vectors that `pushes` holds, in order, without the gaps.
pub open spec fn present<V>(pushes: Seq<Option<V>>) -> Seq<V>
    decreases pushes.len(),
{
    if pushes.len() == 0 {
        Seq::empty()
    } else {
        match pushes.last() {
            Some(push) => present(pushes.drop_last()).push(push),
            None => present(pushes.drop_last()),
        }
    }
}

/// `goal` is a possible outcome of holding an agent at `pos` back from the
/// walls: the sum of what the four walls contribute, in their order.
pub open spec fn bounded<K: Arithmetic>(pos: K::V, dimensions: K::V, min_dist: K::S, goal: Goal<K::V>) -> bool {
    exists|pushes: Seq<Option<K::V>>, sums: Seq<K::V>|
        {
            &&& pushes.len() == 4
            &&& forall|w: int|
                0 <= w < 4 ==> held_back::<K>(pos, dimensions, min_dist, walls()[w], #[trigger] pushes[w])
            &&& #[trigger] running::<K>(present(pushes), sums)
            &&& goal.0 == sums.last()
        }
}

/// What one wall contributes to holding `boid` back, if anything.
fn wall_goal<K: Arithmetic>(boid: &Entity<K::V, K::S>, dimensions: K::V, min_dist: K::S, wall: Wall) -> (push:
    Option<K::V>)
    ensures
        held_back::<K>(boid.pos, dimensions, min_dist, wall, push),
{
    let distance = K::wall_distance(boid.pos, dimensions, min_dist, wall);
    if K::near(distance) {
        Some(K::inward(distance, wall))
    } else {
        None
    }
}

/// Holds an agent back from the walls of an arena with the half extents
/// `dimensions`. Each wall that is nearer than `min_dist` contributes a
/// vector pointing inward; a wall farther away contributes nothing. In a
/// corner both walls contribute.
pub fn bound<K: Arithmetic>(boid: &Entity<K::V, K::S>, dimensions: K::V, min_dist: K::S) -> (goal: Goal<K::V>)
    ensures
        bounded::<K>(boid.pos, dimensions, min_dist, goal),
{
    let all = [Wall::Right, Wall::Left, Wall::Top, Wall::Bottom];
    assert(all@ =~= walls());
    let mut sum = K::zero();
    let ghost mut pushes: Seq<Option<K::V>> = Seq::empty();
    let ghost mut sums: Seq<K::V> = seq![sum];
    let mut w: usize = 0;
    while w < 4
        invariant
            w <= 4,
            all@ == walls(),
            pushes.len() == w,
            forall|k: int|
                0 <= k < w ==> held_back::<K>(
                    boid.pos,
                    dimensions,
                    min_dist,
                    walls()[k],
                    #[trigger] pushes[k],
                ),
            running::<K>(present(pushes), sums),
            sums.last() == sum,
        decreases 4 - w,
    {
        let push = wall_goal::<K>(boid, dimensions, min_dist, all[w]);
        proof {
            assert(pushes.push(push).drop_last() =~= pushes);
        }
        match push {
            Some(inward) => {
                sum = K::plus(sum, inward);
                proof {
                    sums = sums.push(sum);
                }
            },
            None => {},
        }
        proof {
            pushes = pushes.push(push);
        }
        w += 1;
    }
    Goal(sum)
}

/// `goal` points from `pos` straight at `target`, at length one.
pub open spec fn aimed<K: Arithmetic>(pos: K::V, target: K::V, goal: Goal<K::V>) -> bool {
    exists|relative: K::V| #[trigger]
        call_ensures(K::minus, (target, pos), relative) && call_ensures(
            K::normalize,
            (relative,),
            goal.0,
        )
}

/// Heads for a fixed point of the world, whatever the neighbours do.
pub fn static_goal<K: Arithmetic>(boid: &Entity<K::V, K::S>, position: K::V) -> (goal: Goal<K::V>)
    ensures
        aimed::<K>(boid.pos, position, goal),
{
    let relative_position = K::minus(position, boid.pos);
    Goal(K::normalize(relative_position))
}

} // verus!
