use vstd::prelude::*;

verus! {

/// An ordered collection of agents. The order carries no meaning for the
/// simulation, but it is stable within a frame, so that "every other agent"
/// can be taken by leaving one index out.
pub struct World<E>(pub Vec<E>);

/// The agents that a sequence of references points to, in the same order.
pub open spec fn pointees<E>(refs: Seq<&E>) -> Seq<E> {
    Seq::new(refs.len(), |i: int| *refs[i])
}

/// `out` is a possible answer of `f` for the agent `me` when it is shown the
/// agents `others`, in that order, by reference.
pub open spec fn sees<E, A, F: Fn(&E, &[&E]) -> A>(f: F, me: E, others: Seq<E>, out: A) -> bool {
    exists|rest: &[&E]| #[trigger] pointees(rest@) == others && call_ensures(f, (&me, rest), out)
}

/// `f` may be called for the agent `me` with any references to the agents
/// `others`.
pub open spec fn may_see<E, A, F: Fn(&E, &[&E]) -> A>(f: F, me: E, others: Seq<E>) -> bool {
    forall|rest: &[&E]| #[trigger] pointees(rest@) == others ==> call_requires(f, (&me, rest))
}

impl<E> World<E> {
    /// The agents of this world, in order.
    pub open spec fn view(&self) -> Seq<E> {
        self.0@
    }

    /// What the agent at `index` gets to see: every other agent of the same
    /// snapshot, in order.
    pub open spec fn rest_of(&self, index: int) -> Seq<E> {
        self@.remove(index)
    }

    /// The number of agents.
    pub fn len(&self) -> (n: usize)
        ensures
            n == self@.len(),
    {
        self.0.len()
    }

    /// One reference to each agent, in order.
    pub fn to_refs(&self) -> (refs: Vec<&E>)
        ensures
            pointees(refs@) == self@,
    {
        let mut refs: Vec<&E> = Vec::new();
        let mut i: usize = 0;
        while i < self.0.len()
            invariant
                i <= self.0.len(),
                refs@.len() == i,
                forall|k: int| 0 <= k < i ==> *(#[trigger] refs@[k]) == self.0@[k],
            decreases self.0.len() - i,
        {
            refs.push(&self.0[i]);
            i += 1;
        }
        assert(pointees(refs@) =~= self@);
        refs
    }

    /// The view that the agent at `index` has of the world: a reference to
    /// every agent but itself, in order.
    pub fn rest_of_world(&self, index: usize) -> (rest: Vec<&E>)
        requires
            index < self@.len(),
        ensures
            pointees(rest@) == self.rest_of(index as int),
    {
        let mut rest: Vec<&E> = Vec::new();
        let mut i: usize = 0;
        while i < self.0.len()
            invariant
                index < self.0.len(),
                i <= self.0.len(),
                rest@.len() == if i <= index { i as int } else { i - 1 },
                forall|k: int| 0 <= k < rest@.len() && k < index ==> *(#[trigger] rest@[k]) == self.0@[k],
                forall|k: int| index <= k < rest@.len() ==> *(#[trigger] rest@[k]) == self.0@[k + 1],
            decreases self.0.len() - i,
        {
            if i != index {
                rest.push(&self.0[i]);
            }
            i += 1;
        }
        assert(pointees(rest@) =~= self.rest_of(index as int));
        rest
    }

    /// Builds the next world by giving `f` every agent together with its view
    /// of all the others. Each view is taken from this same unmodified
    /// snapshot, so no agent's outcome depends on whether another agent has
    /// already been handled.
    pub fn map_with_rest_of_world<F: Fn(&E, &[&E]) -> E>(&self, f: F) -> (next: World<E>)
        requires
            forall|i: int| 0 <= i < self@.len() ==> may_see(f, #[trigger] self@[i], self.rest_of(i)),
        ensures
            next@.len() == self@.len(),
            forall|i: int|
                0 <= i < self@.len() ==> sees(f, self@[i], self.rest_of(i), #[trigger] next@[i]),
    {
        let mut next: Vec<E> = Vec::new();
        let mut index: usize = 0;
        while index < self.0.len()
            invariant
                index <= self.0.len(),
                next@.len() == index,
                forall|i: int| 0 <= i < self@.len() ==> may_see(f, #[trigger] self@[i], self.rest_of(i)),
                forall|i: int|
                    0 <= i < index ==> sees(f, self@[i], self.rest_of(i), #[trigger] next@[i]),
            decreases self.0.len() - index,
        {
            let rest_of_world = self.rest_of_world(index);
            let rest = rest_of_world.as_slice();
            let new_boid = f(&self.0[index], rest);
            assert(sees(f, self@[index as int], self.rest_of(index as int), new_boid));
            next.push(new_boid);
            index += 1;
        }
        World(next)
    }
}

} // verus!
