use vstd::prelude::*;

verus! {

/// The nearest-hit reduction: one linear pass over the scene's candidate
/// hits for a ray, in scene order.
///
/// Each slot holds `None` where the object disqualified itself (missed, or a
/// non-finite or non-positive distance), otherwise a key that orders as the
/// admissible hit distances do: the caller encodes distances so that a
/// strictly smaller distance gives a strictly smaller key. The reduction
/// returns the index of the object with the smallest key; a later object
/// never displaces an equal key, so on a tie the earliest object in scene
/// order wins.
pub fn nearest_hit(candidates: &Vec<Option<u64>>) -> (winner: Option<usize>)
    ensures
        winner is Some <==> exists|j: int| 0 <= j < candidates@.len() && candidates@[j] is Some,
        winner matches Some(i) ==> {
            &&& (i as int) < candidates@.len()
            &&& candidates@[i as int] is Some
            &&& forall|j: int|
                0 <= j < candidates@.len() && candidates@[j] is Some
                    ==> candidates@[i as int]->Some_0 <= candidates@[j]->Some_0
            &&& forall|j: int|
                0 <= j < i && candidates@[j] is Some
                    ==> candidates@[i as int]->Some_0 < candidates@[j]->Some_0
        },
{
    let mut winner: Option<usize> = None;
    let mut best: u64 = 0;
    let n = candidates.len();
    for k in 0..n
        invariant
            n == candidates@.len(),
            winner is Some <==> exists|j: int| 0 <= j < k && candidates@[j] is Some,
            winner matches Some(i) ==> {
                &&& (i as int) < k
                &&& candidates@[i as int] == Some(best)
                &&& forall|j: int|
                    0 <= j < k && candidates@[j] is Some ==> best <= candidates@[j]->Some_0
                &&& forall|j: int| 0 <= j < i && candidates@[j] is Some ==> best < candidates@[j]->Some_0
            },
    {
        match candidates[k] {
            Some(key) => {
                match winner {
                    Some(_) => {
                        if key < best {
                            winner = Some(k);
                            best = key;
                        }
                    },
                    None => {
                        winner = Some(k);
                        best = key;
                    },
                }
            },
            None => {},
        }
    }
    winner
}

} // verus!
