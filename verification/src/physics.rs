use vstd::prelude::*;
use crate::arithmetic::Arithmetic;
use crate::config::Config;
use crate::world::World;

verus! {

/// The physical state of one agent, over a vector type `V` and a scalar
/// type `S`.
#[derive(Clone, Copy, Debug)]
pub struct Entity<V, S> {
    /// Position in the world.
    pub pos: V,
    /// Linear velocity.
    pub vel: V,
    /// Signed turn rate.
    pub angular_vel: S,
    /// Heading: the direction the agent faces and pushes along.
    pub rot: V,
    /// Mass; always positive.
    pub mass: S,
    /// Effective cross-section that drag acts on.
    pub area: S,
    /// Forces gathered since the last integration step.
    pub resultant_force: V,
}

/// Adds `force` to what the entity has gathered so far; nothing else of
/// the entity changes.
pub fn add_force<K: Arithmetic>(entity: &mut Entity<K::V, K::S>, force: K::V)
    ensures
        call_ensures(K::plus, (old(entity).resultant_force, force), final(entity).resultant_force),
        *final(entity) == (Entity { resultant_force: final(entity).resultant_force, ..*old(entity) }),
{
    entity.resultant_force = K::plus(entity.resultant_force, force);
}

/// `force` is a force of the given magnitude along `vector`; along the
/// zero vector, which has no direction, it is the zero vector itself.
pub open spec fn collinear<K: Arithmetic>(vector: K::V, magnitude: K::S, force: K::V) -> bool {
    ||| call_ensures(K::is_zero, (vector,), true) && force == vector
    ||| call_ensures(K::is_zero, (vector,), false) && call_ensures(K::along, (vector, magnitude), force)
}

/// A force of the given magnitude along `vector`. The zero vector is never
/// normalized: it is handed back as it is.
pub fn collinear_force<K: Arithmetic>(vector: K::V, magnitude: K::S) -> (force: K::V)
    ensures
        collinear::<K>(vector, magnitude, force),
{
    if K::is_zero(vector) {
        vector
    } else {
        K::along(vector, magnitude)
    }
}

/// `drag` is a drag on something that moves at `vel`: a force along the
/// velocity, with the negative magnitude of quadratic drag.
pub open spec fn dragged<K: Arithmetic>(area: K::S, c: K::S, vel: K::V, drag: K::V) -> bool {
    exists|magnitude: K::S| #[trigger]
        call_ensures(K::drag_magnitude, (area, c, vel), magnitude) && collinear::<K>(
            vel,
            magnitude,
            drag,
        )
}

/// Quadratic drag: a force along the velocity and against it. At rest
/// there is none.
pub fn drag_force<K: Arithmetic>(area: K::S, c: K::S, vel: K::V) -> (drag: K::V)
    ensures
        dragged::<K>(area, c, vel, drag),
{
    let drag_magnitude = K::drag_magnitude(area, c, vel);
    collinear_force::<K>(vel, drag_magnitude)
}

/// Drag lies along the velocity: it is a force along `vel`, and for
/// something at rest it is that zero velocity itself.
pub proof fn lemma_drag_is_along_the_velocity<K: Arithmetic>(area: K::S, c: K::S, vel: K::V, drag: K::V)
    requires
        dragged::<K>(area, c, vel, drag),
    ensures
        exists|magnitude: K::S| #[trigger] collinear::<K>(vel, magnitude, drag),
        call_ensures(K::is_zero, (vel,), false) || drag == vel,
{
    let magnitude = choose|magnitude: K::S| #[trigger]
        call_ensures(K::drag_magnitude, (area, c, vel), magnitude) && collinear::<K>(
            vel,
            magnitude,
            drag,
        );
    assert(collinear::<K>(vel, magnitude, drag));
}

/// `frontal` is the share of `vel` along `rot`, but no less than zero.
pub open spec fn faces<K: Arithmetic>(vel: K::V, rot: K::V, frontal: K::S) -> bool {
    exists|dot: K::S| #[trigger]
        call_ensures(K::alignment, (vel, rot), dot) && {
            ||| call_ensures(K::is_negative, (dot,), true) && call_ensures(K::nought, (), frontal)
            ||| call_ensures(K::is_negative, (dot,), false) && frontal == dot
        }
}

/// `after` is a possible state of `before` one time step later.
///
/// Drag acts on the entity's area, enlarged by how little the velocity
/// lies along the heading, and is added to the gathered forces. Their sum
/// over the mass is the acceleration, and the gathered forces are set to
/// zero. The velocity is advanced by the acceleration, and the position by
/// the new velocity. The position is then brought into the arena, while
/// the velocity stays as it is. Last the heading is turned by the turn
/// rate. Turn rate, mass and area are left alone.
pub open spec fn stepped<K: Arithmetic>(
    before: Entity<K::V, K::S>,
    drag_coefficient: K::S,
    delta_time: K::S,
    after: Entity<K::V, K::S>,
) -> bool {
    exists|
        frontal: K::S,
        area: K::S,
        drag: K::V,
        force: K::V,
        acceleration: K::V,
        pos: K::V,
    |
        {
            &&& faces::<K>(before.vel, before.rot, frontal)
            &&& #[trigger] call_ensures(K::drag_area, (before.area, frontal), area)
            &&& dragged::<K>(area, drag_coefficient, before.vel, drag)
            &&& #[trigger] call_ensures(K::plus, (before.resultant_force, drag), force)
            &&& #[trigger] call_ensures(K::over, (force, before.mass), acceleration)
            &&& call_ensures(K::zero, (), after.resultant_force)
            &&& call_ensures(K::integrate, (before.vel, acceleration, delta_time), after.vel)
            &&& #[trigger] call_ensures(K::integrate, (before.pos, after.vel, delta_time), pos)
            &&& call_ensures(K::clamp_to_arena, (pos,), after.pos)
            &&& call_ensures(K::rotate, (before.rot, before.angular_vel, delta_time), after.rot)
            &&& after.angular_vel == before.angular_vel
            &&& after.mass == before.mass
            &&& after.area == before.area
        }
}

/// Advances one entity by one time step, under its gathered forces and
/// under drag.
pub fn step_entity<K: Arithmetic>(
    entity: &mut Entity<K::V, K::S>,
    drag_coefficient: K::S,
    delta_time: K::S,
)
    ensures
        stepped::<K>(*old(entity), drag_coefficient, delta_time, *final(entity)),
{
    let mut dot_c = K::alignment(entity.vel, entity.rot);
    if K::is_negative(dot_c) {
        dot_c = K::nought();
    }
    let area = K::drag_area(entity.area, dot_c);
    let drag = drag_force::<K>(area, drag_coefficient, entity.vel);
    add_force::<K>(entity, drag);

    let acceleration = K::over(entity.resultant_force, entity.mass);
    entity.resultant_force = K::zero();

    entity.vel = K::integrate(entity.vel, acceleration, delta_time);
    let pos = K::integrate(entity.pos, entity.vel, delta_time);
    entity.pos = K::clamp_to_arena(pos);

    entity.rot = K::rotate(entity.rot, entity.angular_vel, delta_time);
}

/// `after` holds, in order, a possible next state of each entity of
/// `before`, for the given drag coefficient and time step.
pub open spec fn integrated<K: Arithmetic>(
    drag_coefficient: K::S,
    delta_time: K::S,
    before: Seq<Entity<K::V, K::S>>,
    after: Seq<Entity<K::V, K::S>>,
) -> bool {
    &&& after.len() == before.len()
    &&& forall|i: int|
        0 <= i < before.len() ==> stepped::<K>(
            before[i],
            drag_coefficient,
            delta_time,
            #[trigger] after[i],
        )
}

/// The integration pass of one frame: every entity is advanced by one time
/// step with the configured drag coefficient, each on its own, whatever
/// has become of the others.
pub fn step_world<K: Arithmetic>(
    world: &mut World<Entity<K::V, K::S>>,
    delta_time: K::S,
    config: &Config<K::S>,
)
    ensures
        integrated::<K>(config.drag_coefficient, delta_time, old(world)@, final(world)@),
{
    let ghost before = world@;
    let mut i: usize = 0;
    while i < world.0.len()
        invariant
            i <= before.len(),
            world@.len() == before.len(),
            forall|k: int| i <= k < before.len() ==> world@[k] == before[k],
            forall|k: int|
                0 <= k < i ==> stepped::<K>(
                    before[k],
                    config.drag_coefficient,
                    delta_time,
                    #[trigger] world@[k],
                ),
        decreases before.len() - i,
    {
        let mut entity = world.0[i];
        step_entity::<K>(&mut entity, config.drag_coefficient, delta_time);
        world.0.set(i, entity);
        i += 1;
    }
}

} // verus!
