//! The extremes of a trajectory.
use crate::scalar::Scalar;
use vstd::prelude::*;

verus! {

/// `i` is the place of the last of the largest numbers among `values`;
/// not-a-numbers are passed over.
pub open spec fn is_last_maximum(values: Seq<Scalar>, i: int) -> bool {
    &&& 0 <= i < values.len()
    &&& !values[i].is_nan()
    &&& forall|j: int| 0 <= j < values.len() && !(#[trigger] values[j]).is_nan() ==> values[j].le(values[i])
    &&& forall|j: int| i < j < values.len() && !(#[trigger] values[j]).is_nan() ==> values[j].lt(values[i])
}

/// No value is a number.
pub open spec fn has_no_number(values: Seq<Scalar>) -> bool {
    forall|j: int| 0 <= j < values.len() ==> (#[trigger] values[j]).is_nan()
}

/// The place of the largest number among the values of a quantity along a
/// trajectory, and of the last of them where several are equal; none
/// where no value is a number.
pub fn last_maximum(values: &Vec<Scalar>) -> (place: Option<usize>)
    ensures
        match place {
            Some(i) => is_last_maximum(values@, i as int),
            None => has_no_number(values@),
        },
{
    let mut best: Option<usize> = None;
    let mut k: usize = 0;
    while k < values.len()
        invariant
            k <= values@.len(),
            match best {
                Some(i) => is_last_maximum(values@.take(k as int), i as int),
                None => has_no_number(values@.take(k as int)),
            },
        decreases values@.len() - k,
    {
        let value = values[k];
        let ghost seen = values@.take(k as int);
        let ghost next = values@.take(k + 1);
        assert(forall|j: int| 0 <= j < k ==> next[j] == seen[j]);
        assert(next[k as int] == value);
        if !value.is_nan() {
            match best {
                Some(i) => {
                    assert(seen[i as int] == values@[i as int]);
                    if !value.lt(values[i]) {
                        assert forall|j: int| 0 <= j < next.len() && !(#[trigger] next[j]).is_nan()
                            implies next[j].le(next[k as int]) by {
                            if j < k {
                                assert(seen[j].le(seen[i as int]));
                            }
                        }
                        best = Some(k);
                    } else {
                        assert(is_last_maximum(next, i as int));
                    }
                },
                None => {
                    assert forall|j: int| 0 <= j < next.len() && !(#[trigger] next[j]).is_nan()
                        implies next[j].le(next[k as int]) by {
                        if j < k {
                            assert(seen[j].is_nan());
                        }
                    }
                    best = Some(k);
                },
            }
        } else {
            match best {
                Some(i) => {
                    assert(is_last_maximum(next, i as int));
                },
                None => {
                    assert(has_no_number(next));
                },
            }
        }
        k += 1;
    }
    assert(values@.take(values@.len() as int) =~= values@);
    best
}

} // verus!
