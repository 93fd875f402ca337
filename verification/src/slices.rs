//! The largest element of a slice of `i32`.

use vstd::prelude::*;

verus! {

/// `m` occurs in `s` and no element of `s` is greater.
pub open spec fn is_max_of(m: i32, s: Seq<i32>) -> bool {
    &&& exists|i: int| 0 <= i < s.len() && s[i] == m
    &&& forall|i: int| 0 <= i < s.len() ==> s[i] <= m
}

/// At most one value is the maximum of a sequence, so `is_max_of` names the
/// result of `find_max` exactly.
pub proof fn lemma_max_unique(s: Seq<i32>, a: i32, b: i32)
    requires
        is_max_of(a, s),
        is_max_of(b, s),
    ensures
        a == b,
{
}

/// Returns the largest element of `values`, or `None` when `values` is empty.
pub fn find_max(values: &[i32]) -> (r: Option<i32>)
    ensures
        values@.len() == 0 <==> r is None,
        r matches Some(m) ==> is_max_of(m, values@),
{
    let n: usize = values.len();
    if n == 0 {
        return None;
    }
    let mut best: i32 = values[0];
    let mut i: usize = 1;
    let ghost mut at: int = 0;
    while i < n
        invariant
            n == values@.len(),
            1 <= i <= n,
            0 <= at < i,
            values@[at] == best,
            forall|k: int| 0 <= k < i ==> values@[k] <= best,
        decreases n - i,
    {
        let v: i32 = values[i];
        if v > best {
            best = v;
            proof {
                at = i as int;
            }
        }
        i += 1;
    }
    Some(best)
}

} // verus!
