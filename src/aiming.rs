use vstd::prelude::*;

verus! {

/// Side an entity fights on. Entities of one side never aim at each other.
#[derive(Clone, Copy, PartialEq, Eq, Structural, Debug)]
pub enum Fraction {
    Drones,
    Turrets,
}

/// What the target selector reads of one entity of the tick's snapshot.
///
/// `reachable` tells whether the lead-compensated aim vector towards the
/// entity is non-zero, and `rank` is a key that orders entities as the cosine
/// between that vector and the actor's forward direction does (greater is
/// closer to where the actor already points).
#[derive(Clone, Copy, PartialEq, Eq, Structural, Debug)]
pub struct Candidate {
    pub id: u64,
    pub fraction: Option<Fraction>,
    pub collidable: bool,
    pub sensor: bool,
    pub reachable: bool,
    pub rank: i64,
}

/// Both sides carry a tag and the tags are equal.
pub open spec fn same_fraction(own: Option<Fraction>, other: Option<Fraction>) -> bool {
    own is Some && other is Some && own->0 == other->0
}

/// The eligibility filter: a physical, non-sensor body of another side
/// (or of no side) that is not exactly where the actor aims from.
pub open spec fn eligible(own: Option<Fraction>, c: Candidate) -> bool {
    c.collidable && !c.sensor && c.reachable && !same_fraction(own, c.fraction)
}

pub open spec fn any_eligible(own: Option<Fraction>, cands: Seq<Candidate>) -> bool {
    exists|i: int| 0 <= i < cands.len() && eligible(own, #[trigger] cands[i])
}

/// The locked entity is still in the snapshot and still passes the filter.
pub open spec fn lock_holds(locked: Option<u64>, own: Option<Fraction>, cands: Seq<Candidate>) -> bool {
    locked is Some && exists|i: int|
        0 <= i < cands.len() && (#[trigger] cands[i]).id == locked->0 && eligible(own, cands[i])
}

/// Index `i` holds the eligible candidate of greatest rank, the last one
/// of them in snapshot order where several share it.
pub open spec fn is_best(own: Option<Fraction>, cands: Seq<Candidate>, i: int) -> bool {
    &&& 0 <= i < cands.len()
    &&& eligible(own, cands[i])
    &&& forall|j: int| 0 <= j < cands.len() && eligible(own, #[trigger] cands[j])
            ==> cands[j].rank <= cands[i].rank
    &&& forall|j: int| i < j < cands.len() && eligible(own, #[trigger] cands[j])
            ==> cands[j].rank < cands[i].rank
}

/// The target the selector settles on: the held lock while it stays valid,
/// else the best eligible candidate, else none.
pub open spec fn selected(locked: Option<u64>, own: Option<Fraction>, cands: Seq<Candidate>) -> Option<u64> {
    if lock_holds(locked, own, cands) {
        locked
    } else if exists|i: int| is_best(own, cands, i) {
        Some(cands[choose|i: int| is_best(own, cands, i)].id)
    } else {
        None
    }
}

/// Entity ids in a snapshot are distinct.
pub open spec fn ids_distinct(cands: Seq<Candidate>) -> bool {
    forall|i: int, j: int|
        0 <= i < cands.len() && 0 <= j < cands.len() && i != j
            ==> (#[trigger] cands[i]).id != (#[trigger] cands[j]).id
}

/// At most one index is the best one.
pub proof fn lemma_best_unique(own: Option<Fraction>, cands: Seq<Candidate>, i: int, j: int)
    requires
        is_best(own, cands, i),
        is_best(own, cands, j),
    ensures
        i == j,
{
    if i < j {
        assert(cands[j].rank < cands[i].rank);
        assert(cands[i].rank <= cands[j].rank);
    } else if j < i {
        assert(cands[i].rank < cands[j].rank);
        assert(cands[j].rank <= cands[i].rank);
    }
}

/// A selected target always is an eligible entity of the snapshot.
pub proof fn lemma_selected_is_eligible(locked: Option<u64>, own: Option<Fraction>, cands: Seq<Candidate>)
    ensures
        selected(locked, own, cands) is Some ==> exists|i: int|
            0 <= i < cands.len() && (#[trigger] cands[i]).id == selected(locked, own, cands)->0
                && eligible(own, cands[i]),
{
    if !lock_holds(locked, own, cands) && exists|i: int| is_best(own, cands, i) {
        let k = choose|i: int| is_best(own, cands, i);
        assert(cands[k].id == selected(locked, own, cands)->0);
    }
}

/// Stickiness: whatever the selector settled on, running it again on the same
/// snapshot keeps that target, however the other candidates rank.
pub proof fn lemma_selection_sticky(locked: Option<u64>, own: Option<Fraction>, cands: Seq<Candidate>)
    ensures
        lock_holds(locked, own, cands) ==> selected(locked, own, cands) == locked,
        selected(locked, own, cands) is Some ==> selected(selected(locked, own, cands), own, cands)
            == selected(locked, own, cands),
{
    lemma_selected_is_eligible(locked, own, cands);
}

/// Faction filter: an entity of the actor's own side is never selected.
pub proof fn lemma_same_fraction_never_selected(
    locked: Option<u64>,
    own: Option<Fraction>,
    cands: Seq<Candidate>,
    i: int,
)
    requires
        ids_distinct(cands),
        0 <= i < cands.len(),
        same_fraction(own, cands[i].fraction),
    ensures
        selected(locked, own, cands) != Some(cands[i].id),
{
    lemma_selected_is_eligible(locked, own, cands);
    if selected(locked, own, cands) == Some(cands[i].id) {
        let k = choose|k: int|
            0 <= k < cands.len() && (#[trigger] cands[k]).id == selected(locked, own, cands)->0
                && eligible(own, cands[k]);
        assert(k == i);
    }
}

/// Whether `c` passes the eligibility filter for an actor of side `own`.
pub fn is_eligible(own: Option<Fraction>, c: &Candidate) -> (r: bool)
    ensures
        r == eligible(own, *c),
{
    c.collidable && !c.sensor && c.reachable && !matches!(
        (own, c.fraction), (Some(a), Some(b)) if a == b
    )
}

/// Scans the snapshot for the best eligible candidate.
pub fn best_candidate(own: Option<Fraction>, cands: &Vec<Candidate>) -> (r: Option<usize>)
    ensures
        r is None <==> !any_eligible(own, cands@),
        r is Some ==> is_best(own, cands@, r->0 as int),
{
    let mut best: Option<usize> = None;
    let mut i: usize = 0;
    while i < cands.len()
        invariant
            i <= cands.len(),
            best is None ==> forall|j: int| 0 <= j < i ==> !eligible(own, #[trigger] cands@[j]),
            best is Some ==> {
                let b = best->0 as int;
                &&& b < i
                &&& eligible(own, cands@[b])
                &&& forall|j: int| 0 <= j < i && eligible(own, #[trigger] cands@[j])
                        ==> cands@[j].rank <= cands@[b].rank
                &&& forall|j: int| b < j < i && eligible(own, #[trigger] cands@[j])
                        ==> cands@[j].rank < cands@[b].rank
            },
        decreases cands.len() - i,
    {
        let c = &cands[i];
        let ok = is_eligible(own, c);
        if ok {
            match best {
                None => {
                    best = Some(i);
                },
                Some(b) => {
                    if c.rank >= cands[b].rank {
                        best = Some(i);
                    }
                },
            }
        }
        i += 1;
    }
    proof {
        if best is None {
            assert(!any_eligible(own, cands@));
        } else {
            assert(any_eligible(own, cands@)) by {
                let b = best->0 as int;
                assert(eligible(own, cands@[b]));
            }
        }
    }
    best
}

/// Keeps the locked target while it stays eligible; otherwise picks the
/// eligible candidate that needs the least rotation, or none.
pub fn select_target(locked: Option<u64>, own: Option<Fraction>, cands: &Vec<Candidate>) -> (r: Option<u64>)
    ensures
        r == selected(locked, own, cands@),
        r is None <==> !lock_holds(locked, own, cands@) && !any_eligible(own, cands@),
{
    if let Some(id) = locked {
        let mut i: usize = 0;
        while i < cands.len()
            invariant
                i <= cands.len(),
                locked == Some(id),
                forall|j: int| 0 <= j < i ==> !((#[trigger] cands@[j]).id == id && eligible(own, cands@[j])),
            decreases cands.len() - i,
        {
            let c = &cands[i];
            let ok = is_eligible(own, c);
            if c.id == id && ok {
                assert(lock_holds(locked, own, cands@));
                return locked;
            }
            i += 1;
        }
    }
    assert(!lock_holds(locked, own, cands@));
    match best_candidate(own, cands) {
        Some(b) => {
            proof {
                let k = choose|k: int| is_best(own, cands@, k);
                lemma_best_unique(own, cands@, k, b as int);
            }
            Some(cands[b].id)
        },
        None => {
            proof {
                if exists|k: int| is_best(own, cands@, k) {
                    let k = choose|k: int| is_best(own, cands@, k);
                    assert(eligible(own, cands@[k]));
                }
            }
            None
        },
    }
}

} // verus!
