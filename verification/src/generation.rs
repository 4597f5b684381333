use vstd::prelude::*;
use crate::arithmetic::Arithmetic;
use crate::physics::Entity;
use crate::world::World;

verus! {

/// `entity` is a default entity but for its position, drawn from the
/// rectangle between `min_pos` and `max_pos`, and its heading, drawn from
/// the full turn.
pub open spec fn spawned<K: Arithmetic>(min_pos: K::V, max_pos: K::V, entity: Entity<K::V, K::S>) -> bool {
    exists|template: Entity<K::V, K::S>| #[trigger]
        call_ensures(K::default_entity, (), template) && {
            &&& call_ensures(K::random_position, (min_pos, max_pos), entity.pos)
            &&& call_ensures(K::random_heading, (), entity.rot)
            &&& entity == (Entity { pos: entity.pos, rot: entity.rot, ..template })
        }
}

/// The initial world: as many agents as `population` says, each with a
/// random position in the rectangle between `min_pos` and `max_pos` and a
/// random heading, and with every other field at its default. Position and
/// heading are drawn anew for every agent, the position first.
pub fn random_world<K: Arithmetic>(population: u32, min_pos: K::V, max_pos: K::V) -> (world: World<
    Entity<K::V, K::S>,
>)
    ensures
        world@.len() == population,
        forall|i: int| 0 <= i < population ==> spawned::<K>(min_pos, max_pos, #[trigger] world@[i]),
{
    let mut boids: Vec<Entity<K::V, K::S>> = Vec::new();
    let mut made: u32 = 0;
    while made < population
        invariant
            made <= population,
            boids@.len() == made,
            forall|i: int| 0 <= i < made ==> spawned::<K>(min_pos, max_pos, #[trigger] boids@[i]),
        decreases population - made,
    {
        let pos = K::random_position(min_pos, max_pos);
        let rot = K::random_heading();
        let mut boid = K::default_entity();
        boid.pos = pos;
        boid.rot = rot;
        boids.push(boid);
        made += 1;
    }
    World(boids)
}

} // verus!
