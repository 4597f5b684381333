use vstd::prelude::*;

verus! {

/// The parameters of a session, over any scalar type `S`. A record is
/// always replaced as a whole, never updated in part.
#[derive(Clone, Copy, Debug)]
pub struct Config<S> {
    /// Radius within which an agent perceives its neighbours; never zero.
    pub influence_radius: S,
    /// Coefficient of the quadratic drag.
    pub drag_coefficient: S,
    /// Number of agents of the initial world.
    pub population: u32,
    /// Largest propulsive force an agent can apply.
    pub max_force: S,
    /// Largest turn rate an agent can command.
    pub max_ang_vel: S,
    /// Whether agents steer at all; when not, they only drift.
    pub behaviour_active: bool,
}

} // verus!
