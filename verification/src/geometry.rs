use vstd::prelude::*;
use crate::world::World;

verus! {

/// A shape to draw: its points, in order, and the kind of primitive that
/// the points are to be read as.
pub struct Model<P, K>(pub Vec<P>, pub K);

impl<P, K: Copy> Model<P, K> {
    /// The same shape with every point replaced by what `f` answers for it.
    pub fn map<F: Fn(&P) -> P>(&self, f: F) -> (mapped: Model<P, K>)
        requires
            forall|i: int| 0 <= i < self.0@.len() ==> call_requires(f, (&#[trigger] self.0@[i],)),
        ensures
            mapped.1 == self.1,
            mapped.0@.len() == self.0@.len(),
            forall|i: int|
                0 <= i < self.0@.len() ==> call_ensures(f, (&self.0@[i],), #[trigger] mapped.0@[i]),
    {
        let mut points: Vec<P> = Vec::new();
        let mut i: usize = 0;
        while i < self.0.len()
            invariant
                i <= self.0@.len(),
                points@.len() == i,
                forall|k: int| 0 <= k < self.0@.len() ==> call_requires(f, (&#[trigger] self.0@[k],)),
                forall|k: int| 0 <= k < i ==> call_ensures(f, (&self.0@[k],), #[trigger] points@[k]),
            decreases self.0@.len() - i,
        {
            points.push(f(&self.0[i]));
            i += 1;
        }
        Model(points, self.1)
    }
}

/// The shapes of a whole world: for every entity in turn, what each of
/// `funcs` draws of it, in the order of `funcs`.
pub fn world_to_models<E, M, F: Fn(&E) -> M>(world: &World<E>, funcs: &[F]) -> (models: Vec<M>)
    requires
        forall|i: int, j: int|
            #![trigger funcs@[j], world@[i]]
            0 <= i < world@.len() && 0 <= j < funcs@.len() ==> call_requires(
                funcs@[j],
                (&world@[i],),
            ),
    ensures
        models@.len() == world@.len() * funcs@.len(),
        forall|i: int, j: int|
            #![trigger funcs@[j], world@[i]]
            0 <= i < world@.len() && 0 <= j < funcs@.len() ==> call_ensures(
                funcs@[j],
                (&world@[i],),
                models@[i * funcs@.len() + j],
            ),
{
    let mut models: Vec<M> = Vec::new();
    let ghost width = funcs@.len() as int;
    let mut i: usize = 0;
    while i < world.len()
        invariant
            width == funcs@.len(),
            i <= world@.len(),
            models@.len() == i * width,
            forall|a: int, b: int|
                #![trigger funcs@[b], world@[a]]
                0 <= a < world@.len() && 0 <= b < funcs@.len() ==> call_requires(
                    funcs@[b],
                    (&world@[a],),
                ),
            forall|a: int, b: int|
                #![trigger funcs@[b], world@[a]]
                0 <= a < i && 0 <= b < width ==> call_ensures(
                    funcs@[b],
                    (&world@[a],),
                    models@[a * width + b],
                ),
        decreases world@.len() - i,
    {
        let entity = &world.0[i];
        let mut j: usize = 0;
        while j < funcs.len()
            invariant
                width == funcs@.len(),
                i < world@.len(),
                *entity == world@[i as int],
                j <= width,
                models@.len() == i * width + j,
                forall|a: int, b: int|
                    #![trigger funcs@[b], world@[a]]
                    0 <= a < world@.len() && 0 <= b < funcs@.len() ==> call_requires(
                        funcs@[b],
                        (&world@[a],),
                    ),
                forall|a: int, b: int|
                    #![trigger funcs@[b], world@[a]]
                    0 <= a < i && 0 <= b < width ==> call_ensures(
                        funcs@[b],
                        (&world@[a],),
                        models@[a * width + b],
                    ),
                forall|b: int|
                    0 <= b < j ==> call_ensures(
                        #[trigger] funcs@[b],
                        (entity,),
                        models@[i * width + b],
                    ),
            decreases width - j,
        {
            let ghost before = models@;
            let model = (funcs[j])(entity);
            models.push(model);
            proof {
                assert forall|a: int, b: int|
                    #![trigger funcs@[b], world@[a]]
                    0 <= a < i && 0 <= b < width implies models@[a * width + b] == before[a * width
                        + b] by {
                    assert(0 <= a * width + b < i * width) by (nonlinear_arith)
                        requires
                            0 <= a < i,
                            0 <= b < width,
                    ;
                }
            }
            j += 1;
        }
        proof {
            assert((i + 1) * width == i * width + width) by (nonlinear_arith);
        }
        i += 1;
    }
    models
}

} // verus!
