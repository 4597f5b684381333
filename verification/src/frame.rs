use vstd::prelude::*;
use crate::arithmetic::Arithmetic;
use crate::config::Config;
use crate::goals::{can_evaluate, resolved, resultant_goal, Goal, InfluenceRadius, ResultantGoal};
use crate::physics::{integrated, Entity};
use crate::strategies::{steered, v1};
use crate::world::World;

verus! {

/// `next` is a possible state of `boid` after the steering pass: its
/// resultant goal among `others` is resolved within the configured
/// influence radius, and the agent is steered towards it within the
/// configured largest turn rate and largest force.
pub open spec fn behaved<K: Arithmetic, F: Fn(&Entity<K::V, K::S>, &[&Entity<K::V, K::S>]) -> Goal<K::V>>(
    config: Config<K::S>,
    goal_functions: Seq<F>,
    boid: Entity<K::V, K::S>,
    others: Seq<Entity<K::V, K::S>>,
    next: Entity<K::V, K::S>,
) -> bool {
    exists|goal: ResultantGoal<K::V>| #[trigger]
        resolved::<K, F>(goal_functions, config.influence_radius, boid, others, goal) && steered::<K>(
            boid,
            goal.0,
            config.max_ang_vel,
            config.max_force,
            next,
        )
}

/// `after` is a possible outcome of the steering pass on `before`: each
/// agent is steered against all the other agents of `before` itself.
pub open spec fn all_behaved<K: Arithmetic, F: Fn(&Entity<K::V, K::S>, &[&Entity<K::V, K::S>]) -> Goal<K::V>>(
    config: Config<K::S>,
    goal_functions: Seq<F>,
    before: Seq<Entity<K::V, K::S>>,
    after: Seq<Entity<K::V, K::S>>,
) -> bool {
    &&& after.len() == before.len()
    &&& forall|i: int|
        0 <= i < before.len() ==> behaved::<K, F>(
            config,
            goal_functions,
            before[i],
            before.remove(i),
            #[trigger] after[i],
        )
}

/// Every goal function accepts every agent of `world` with whatever
/// neighbourhood it may perceive among the others.
pub open spec fn can_behave<K: Arithmetic, F: Fn(&Entity<K::V, K::S>, &[&Entity<K::V, K::S>]) -> Goal<K::V>>(
    config: Config<K::S>,
    goal_functions: Seq<F>,
    world: Seq<Entity<K::V, K::S>>,
) -> bool {
    forall|i: int|
        0 <= i < world.len() ==> can_evaluate::<K, F>(
            goal_functions,
            config.influence_radius,
            #[trigger] world[i],
            world.remove(i),
        )
}

/// The steering pass of one frame: every agent resolves its goal against
/// the previous frame's snapshot of all other agents and is steered towards
/// it. No agent's outcome depends on whether another has been steered yet.
pub fn step_world<K: Arithmetic, F: Fn(&Entity<K::V, K::S>, &[&Entity<K::V, K::S>]) -> Goal<K::V>>(
    world: &World<Entity<K::V, K::S>>,
    config: &Config<K::S>,
    goal_functions: &[F],
) -> (next: World<Entity<K::V, K::S>>)
    requires
        can_behave::<K, F>(*config, goal_functions@, world@),
    ensures
        all_behaved::<K, F>(*config, goal_functions@, world@, next@),
{
    let mut next: Vec<Entity<K::V, K::S>> = Vec::new();
    let mut index: usize = 0;
    while index < world.len()
        invariant
            index <= world@.len(),
            can_behave::<K, F>(*config, goal_functions@, world@),
            next@.len() == index,
            forall|i: int|
                0 <= i < index ==> behaved::<K, F>(
                    *config,
                    goal_functions@,
                    world@[i],
                    world@.remove(i),
                    #[trigger] next@[i],
                ),
        decreases world@.len() - index,
    {
        let rest_of_world = world.rest_of_world(index);
        let mut new_boid = world.0[index];
        let resultant_goal = resultant_goal::<K, F>(
            &new_boid,
            rest_of_world.as_slice(),
            InfluenceRadius(config.influence_radius),
            goal_functions,
        );
        v1::<K>(&mut new_boid, resultant_goal, config.max_ang_vel, config.max_force);
        next.push(new_boid);
        index += 1;
    }
    World(next)
}

/// `after` is a possible outcome of one whole frame on `before`: first the
/// steering pass over all agents, if behaviour is active, and only then
/// the integration pass over what the steering pass left.
pub open spec fn framed<K: Arithmetic, F: Fn(&Entity<K::V, K::S>, &[&Entity<K::V, K::S>]) -> Goal<K::V>>(
    delta_time: K::S,
    config: Config<K::S>,
    goal_functions: Seq<F>,
    before: Seq<Entity<K::V, K::S>>,
    after: Seq<Entity<K::V, K::S>>,
) -> bool {
    exists|between: Seq<Entity<K::V, K::S>>|
        {
            &&& if config.behaviour_active {
                all_behaved::<K, F>(config, goal_functions, before, between)
            } else {
                between == before
            }
            &&& #[trigger] integrated::<K>(config.drag_coefficient, delta_time, between, after)
        }
}

/// One frame: the world of the previous frame is replaced, as a whole, by
/// the world of the next. If behaviour is active all agents are steered
/// against the previous snapshot; after that, and never before, every
/// agent is advanced by the integrator.
pub fn step_frame<K: Arithmetic, F: Fn(&Entity<K::V, K::S>, &[&Entity<K::V, K::S>]) -> Goal<K::V>>(
    world: World<Entity<K::V, K::S>>,
    delta_time: K::S,
    config: &Config<K::S>,
    goal_functions: &[F],
) -> (next: World<Entity<K::V, K::S>>)
    requires
        config.behaviour_active ==> can_behave::<K, F>(*config, goal_functions@, world@),
    ensures
        framed::<K, F>(delta_time, *config, goal_functions@, world@, next@),
{
    let mut world = world;
    if config.behaviour_active {
        world = step_world::<K, F>(&world, config, goal_functions);
    }
    crate::physics::step_world::<K>(&mut world, delta_time, config);
    world
}

} // verus!
