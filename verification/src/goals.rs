use vstd::prelude::*;
use crate::arithmetic::Arithmetic;
use crate::physics::Entity;
use crate::utilities::{averaged, mean};
use crate::world::{pointees, sees, World};

verus! {

/// What one behaviour wants of an agent: a direction and an intensity, in
/// the agent's local frame.
pub struct Goal<V>(pub V);

/// What an agent is to pursue in one frame: the mean of its goals.
pub struct ResultantGoal<V>(pub V);

/// The radius within which an agent perceives others. Must never be zero.
#[derive(Clone, Copy)]
pub struct InfluenceRadius<S>(pub S);

/// `local` holds the agents `others` as `boid` sees them: each with the
/// position of `boid` subtracted from its own, and otherwise unchanged.
pub open spec fn localized<K: Arithmetic>(
    boid: Entity<K::V, K::S>,
    others: Seq<Entity<K::V, K::S>>,
    local: Seq<Entity<K::V, K::S>>,
) -> bool {
    &&& local.len() == others.len()
    &&& forall|i: int|
        0 <= i < others.len() ==> {
            &&& call_ensures(K::minus, (others[i].pos, boid.pos), (#[trigger] local[i]).pos)
            &&& local[i] == (Entity { pos: local[i].pos, ..others[i] })
        }
}

/// `keep` holds, in order, whether each of `local` lies within the radius
/// of the origin.
pub open spec fn judged<K: Arithmetic>(
    radius: K::S,
    local: Seq<Entity<K::V, K::S>>,
    keep: Seq<bool>,
) -> bool {
    &&& keep.len() == local.len()
    &&& forall|i: int|
        0 <= i < local.len() ==> call_ensures(K::within, (local[i].pos, radius), #[trigger] keep[i])
}

/// The items whose verdict in `keep` is `true`, in the order in which they stood.
pub open spec fn kept<E>(items: Seq<E>, keep: Seq<bool>) -> Seq<E>
    decreases items.len(),
{
    if items.len() == 0 || keep.len() != items.len() {
        Seq::empty()
    } else if keep.last() {
        kept(items.drop_last(), keep.drop_last()).push(items.last())
    } else {
        kept(items.drop_last(), keep.drop_last())
    }
}

/// `seen` is a possible neighbourhood of `boid` among `others`: every other
/// agent is first moved into the local frame of `boid`, and exactly those
/// that lie within the radius there remain, in order.
pub open spec fn perceived<K: Arithmetic>(
    radius: K::S,
    boid: Entity<K::V, K::S>,
    others: Seq<Entity<K::V, K::S>>,
    seen: Seq<Entity<K::V, K::S>>,
) -> bool {
    exists|local: Seq<Entity<K::V, K::S>>, keep: Seq<bool>|
        localized::<K>(boid, others, local) && judged::<K>(radius, local, keep) && seen
            == #[trigger] kept(local, keep)
}

/// `goals` holds, in order, what each goal function may answer for `boid`
/// and the neighbourhood `seen`.
pub open spec fn evaluated<V, S, F: Fn(&Entity<V, S>, &[&Entity<V, S>]) -> Goal<V>>(
    goal_functions: Seq<F>,
    boid: Entity<V, S>,
    seen: Seq<Entity<V, S>>,
    goals: Seq<V>,
) -> bool {
    &&& goals.len() == goal_functions.len()
    &&& forall|j: int|
        0 <= j < goal_functions.len() ==> sees(goal_functions[j], boid, seen, Goal(#[trigger] goals[j]))
}

/// Every goal function accepts `boid` with whatever neighbourhood it may
/// perceive among `others`.
pub open spec fn can_evaluate<K: Arithmetic, F: Fn(&Entity<K::V, K::S>, &[&Entity<K::V, K::S>]) -> Goal<K::V>>(
    goal_functions: Seq<F>,
    radius: K::S,
    boid: Entity<K::V, K::S>,
    others: Seq<Entity<K::V, K::S>>,
) -> bool {
    forall|j: int, neighbours: &[&Entity<K::V, K::S>]|
        0 <= j < goal_functions.len() && #[trigger] perceived::<K>(
            radius,
            boid,
            others,
            pointees(neighbours@),
        ) ==> call_requires(#[trigger] goal_functions[j], (&boid, neighbours))
}

/// `goal` is a possible resultant goal of `boid` among `others`: the
/// neighbourhood is perceived once, every goal function is asked about that
/// one neighbourhood, and the goal is the mean of their answers.
pub open spec fn resolved<K: Arithmetic, F: Fn(&Entity<K::V, K::S>, &[&Entity<K::V, K::S>]) -> Goal<K::V>>(
    goal_functions: Seq<F>,
    radius: K::S,
    boid: Entity<K::V, K::S>,
    others: Seq<Entity<K::V, K::S>>,
    goal: ResultantGoal<K::V>,
) -> bool {
    exists|seen: Seq<Entity<K::V, K::S>>, goals: Seq<K::V>|
        perceived::<K>(radius, boid, others, seen) && #[trigger] evaluated(
            goal_functions,
            boid,
            seen,
            goals,
        ) && averaged::<K>(goals, goal.0)
}

/// Every other agent as `boid` sees it: moved so that `boid` stands at the
/// origin of the coordinates.
pub fn origin_at_boid<K: Arithmetic>(
    boid: &Entity<K::V, K::S>,
    boids: &[&Entity<K::V, K::S>],
) -> (local: World<Entity<K::V, K::S>>)
    ensures
        localized::<K>(*boid, pointees(boids@), local@),
{
    let ghost others = pointees(boids@);
    let mut result: Vec<Entity<K::V, K::S>> = Vec::new();
    let mut i: usize = 0;
    while i < boids.len()
        invariant
            others == pointees(boids@),
            i <= boids@.len(),
            localized::<K>(*boid, others.take(i as int), result@),
        decreases boids@.len() - i,
    {
        assert(*boids@[i as int] == others[i as int]);
        let mut cloned = *boids[i];
        cloned.pos = K::minus(cloned.pos, boid.pos);
        result.push(cloned);
        i += 1;
    }
    assert(others.take(i as int) =~= others);
    World(result)
}

/// The perception filter that every goal shares: the other agents in the
/// local frame of `boid`, and of those only the ones within the radius.
pub fn region_of_influence<K: Arithmetic>(
    boid: &Entity<K::V, K::S>,
    boids: &[&Entity<K::V, K::S>],
    radius: InfluenceRadius<K::S>,
) -> (seen: World<Entity<K::V, K::S>>)
    ensures
        perceived::<K>(radius.0, *boid, pointees(boids@), seen@),
        forall|k: int|
            0 <= k < seen@.len() ==> call_ensures(K::within, ((#[trigger] seen@[k]).pos, radius.0), true),
        seen@.len() <= boids@.len(),
{
    let boid_perspective_world = origin_at_boid::<K>(boid, boids);
    let local = &boid_perspective_world.0;
    let ghost others = pointees(boids@);
    let ghost mut keep: Seq<bool> = Seq::empty();
    let mut seen: Vec<Entity<K::V, K::S>> = Vec::new();
    let mut i: usize = 0;
    while i < local.len()
        invariant
            localized::<K>(*boid, others, local@),
            i <= local@.len(),
            judged::<K>(radius.0, local@.take(i as int), keep),
            seen@ == kept(local@.take(i as int), keep),
            forall|k: int|
                0 <= k < seen@.len() ==> call_ensures(
                    K::within,
                    ((#[trigger] seen@[k]).pos, radius.0),
                    true,
                ),
        decreases local@.len() - i,
    {
        let candidate = local[i];
        let inside = K::within(candidate.pos, radius.0);
        proof {
            assert(local@.take(i + 1).drop_last() =~= local@.take(i as int));
            assert(keep.push(inside).drop_last() =~= keep);
            keep = keep.push(inside);
        }
        if inside {
            seen.push(candidate);
        }
        i += 1;
    }
    assert(local@.take(i as int) =~= local@);
    proof {
        lemma_kept_is_no_longer(local@, keep);
    }
    World(seen)
}

/// A filter adds nothing: what is kept is no longer than what it was taken
/// from.
pub proof fn lemma_kept_is_no_longer<E>(items: Seq<E>, keep: Seq<bool>)
    ensures
        kept(items, keep).len() <= items.len(),
    decreases items.len(),
{
    if items.len() > 0 && keep.len() == items.len() {
        lemma_kept_is_no_longer(items.drop_last(), keep.drop_last());
    }
}

/// The one desired direction of `boid` for this frame: the mean over all
/// active goal functions, each asked about the same filtered, boid-local
/// neighbourhood.
pub fn resultant_goal<K: Arithmetic, F: Fn(&Entity<K::V, K::S>, &[&Entity<K::V, K::S>]) -> Goal<K::V>>(
    boid: &Entity<K::V, K::S>,
    other_boids: &[&Entity<K::V, K::S>],
    radius: InfluenceRadius<K::S>,
    goal_functions: &[F],
) -> (goal: ResultantGoal<K::V>)
    requires
        can_evaluate::<K, F>(goal_functions@, radius.0, *boid, pointees(other_boids@)),
    ensures
        resolved::<K, F>(goal_functions@, radius.0, *boid, pointees(other_boids@), goal),
{
    let influential_boids = region_of_influence::<K>(boid, other_boids, radius);
    let influential_refs = influential_boids.to_refs();
    let neighbours = influential_refs.as_slice();
    let mut goals: Vec<K::V> = Vec::new();
    let mut j: usize = 0;
    while j < goal_functions.len()
        invariant
            j <= goal_functions@.len(),
            goals@.len() == j,
            pointees(neighbours@) == influential_boids@,
            perceived::<K>(radius.0, *boid, pointees(other_boids@), influential_boids@),
            can_evaluate::<K, F>(goal_functions@, radius.0, *boid, pointees(other_boids@)),
            forall|k: int|
                0 <= k < j ==> sees(
                    goal_functions@[k],
                    *boid,
                    influential_boids@,
                    Goal(#[trigger] goals@[k]),
                ),
        decreases goal_functions@.len() - j,
    {
        let goal = (goal_functions[j])(boid, neighbours);
        assert(sees(goal_functions@[j as int], *boid, influential_boids@, goal));
        goals.push(goal.0);
        j += 1;
    }
    assert(evaluated(goal_functions@, *boid, influential_boids@, goals@));
    ResultantGoal(mean::<K>(goals.as_slice()))
}

} // verus!
