use vstd::prelude::*;

verus! {

/// The player's lock after picking `hit` with the crosshair, given the
/// entities locked before: picking an unlocked entity locks it alone, picking
/// a locked one releases every lock.
pub fn next_lock(locked: &Vec<u64>, hit: u64) -> (r: Option<u64>)
    ensures
        r == (if locked@.contains(hit) { None } else { Some(hit) }),
{
    let mut i: usize = 0;
    while i < locked.len()
        invariant
            i <= locked.len(),
            forall|j: int| 0 <= j < i ==> locked@[j] != hit,
        decreases locked.len() - i,
    {
        if locked[i] == hit {
            return None;
        }
        i += 1;
    }
    Some(hit)
}

} // verus!
