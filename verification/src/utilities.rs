use vstd::prelude::*;
use crate::arithmetic::Arithmetic;

verus! {

/// `sums` holds the running sums of `vectors`: it starts at a zero vector,
/// and each further entry is a sum of the entry before it and the next
/// vector. Its last entry is the sum of them all.
pub open spec fn running<K: Arithmetic>(vectors: Seq<K::V>, sums: Seq<K::V>) -> bool {
    &&& sums.len() == vectors.len() + 1
    &&& call_ensures(K::zero, (), sums[0])
    &&& forall|k: int|
        0 <= k < vectors.len() ==> call_ensures(K::plus, (sums[k], vectors[k]), #[trigger] sums[k + 1])
}

/// `total` is a sum of `vectors`, added up in order from a zero vector.
pub open spec fn summed<K: Arithmetic>(vectors: Seq<K::V>, total: K::V) -> bool {
    exists|sums: Seq<K::V>| #[trigger] running::<K>(vectors, sums) && sums.last() == total
}

/// `result` is a mean of `vectors`: their sum divided by their number, and
/// the zero vector, undivided, if there are none.
pub open spec fn averaged<K: Arithmetic>(vectors: Seq<K::V>, result: K::V) -> bool {
    if vectors.len() == 0 {
        call_ensures(K::zero, (), result)
    } else {
        exists|total: K::V| #[trigger]
            summed::<K>(vectors, total) && call_ensures(
                K::over_count,
                (total, vectors.len() as usize),
                result,
            )
    }
}

/// The sum of `vectors`, added up in order from the zero vector.
pub fn sum<K: Arithmetic>(vectors: &[K::V]) -> (total: K::V)
    ensures
        summed::<K>(vectors@, total),
{
    let mut total = K::zero();
    let ghost mut sums: Seq<K::V> = seq![total];
    let mut i: usize = 0;
    while i < vectors.len()
        invariant
            i <= vectors@.len(),
            running::<K>(vectors@.take(i as int), sums),
            sums.last() == total,
        decreases vectors@.len() - i,
    {
        total = K::plus(total, vectors[i]);
        proof {
            sums = sums.push(total);
        }
        i += 1;
    }
    assert(vectors@.take(i as int) =~= vectors@);
    total
}

/// The mean of `vectors`. The mean of no vectors at all is the zero
/// vector: nothing is divided then.
pub fn mean<K: Arithmetic>(vectors: &[K::V]) -> (result: K::V)
    ensures
        averaged::<K>(vectors@, result),
{
    let total = sum::<K>(vectors);
    let length = vectors.len();
    if length > 0 {
        K::over_count(total, length)
    } else {
        proof {
            let sums = choose|sums: Seq<K::V>| #[trigger]
                running::<K>(vectors@, sums) && sums.last() == total;
            assert(sums.last() == sums[0]);
        }
        total
    }
}

/// `angle` is a clockwise angle of `vec` from the upward direction, from
/// zero up to a full turn: zero for the zero vector; else the unsigned
/// angle of the normalized vector from the upward unit vector, and what
/// that lacks of a full turn where the normalized vector points to the
/// left.
pub open spec fn clockwise_from_up<K: Arithmetic>(vec: K::V, angle: K::S) -> bool {
    ||| call_ensures(K::is_zero, (vec,), true) && call_ensures(K::nought, (), angle)
    ||| call_ensures(K::is_zero, (vec,), false) && exists|unit: K::V, unsigned: K::S|
        {
            &&& #[trigger] call_ensures(K::normalize, (vec,), unit)
            &&& #[trigger] call_ensures(K::angle_from_j_hat, (unit,), unsigned)
            &&& {
                ||| call_ensures(K::points_left, (unit,), true) && call_ensures(
                    K::explement,
                    (unsigned,),
                    angle,
                )
                ||| call_ensures(K::points_left, (unit,), false) && angle == unsigned
            }
        }
}

/// The clockwise angle of `vec` from the upward direction. The zero
/// vector, which has no direction, is given the angle zero.
pub fn clockwise_angle_from_j_hat<K: Arithmetic>(vec: &K::V) -> (angle: K::S)
    ensures
        clockwise_from_up::<K>(*vec, angle),
{
    if K::is_zero(*vec) {
        return K::nought();
    }
    let vec = K::normalize(*vec);
    let angle = K::angle_from_j_hat(vec);
    if K::points_left(vec) {
        K::explement(angle)
    } else {
        angle
    }
}

} // verus!
