use vstd::prelude::*;

verus! {

/// Multisampling switches between 4 samples per pixel and none at all (1).
pub fn toggle_msaa(samples: u32) -> (r: u32)
    ensures
        r == (if samples == 4 { 1u32 } else { 4u32 }),
{
    if samples == 4 {
        1
    } else {
        4
    }
}

} // verus!
