use vstd::prelude::*;

verus! {

/// Triangle `k` of an index list: the indices at `3k`, `3k + 1` and `3k + 2`.
pub open spec fn triangle_at(indices: Seq<u32>, k: int) -> Seq<u32> {
    seq![indices[3 * k], indices[3 * k + 1], indices[3 * k + 2]]
}

/// Groups a mesh's vertex indices into triangles of three, in order; indices
/// left over after the last whole triangle are dropped.
pub fn triangles(indices: &Vec<u32>) -> (r: Vec<[u32; 3]>)
    ensures
        r@.len() == indices@.len() / 3,
        forall|k: int| 0 <= k < r@.len() ==> (#[trigger] r@[k])@ == triangle_at(indices@, k),
{
    let n: usize = indices.len();
    let count: usize = n / 3;
    let mut r: Vec<[u32; 3]> = Vec::new();
    let mut k: usize = 0;
    while k < count
        invariant
            n == indices@.len(),
            count == n / 3,
            k <= count,
            r@.len() == k,
            forall|j: int| 0 <= j < k ==> (#[trigger] r@[j])@ == triangle_at(indices@, j),
        decreases count - k,
    {
        assert(3 * k + 2 < indices@.len()) by (nonlinear_arith)
            requires
                k < count,
                count == indices@.len() / 3,
        {}
        let base: usize = 3 * k;
        let t: [u32; 3] = [indices[base], indices[base + 1], indices[base + 2]];
        assert(t@ =~= triangle_at(indices@, k as int));
        r.push(t);
        k += 1;
    }
    r
}

} // verus!
