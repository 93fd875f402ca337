//! String reversal, character by character.

use vstd::prelude::*;
use vstd::string::*;

verus! {

/// The characters of `s` from the last to the first.
pub open spec fn reversed(s: Seq<char>) -> Seq<char> {
    Seq::new(s.len(), |i: int| s[s.len() - 1 - i])
}

/// Reversing twice gives the sequence back.
pub proof fn lemma_reversed_twice(s: Seq<char>)
    ensures
        reversed(reversed(s)) == s,
{
    assert(reversed(reversed(s)) =~= s);
}

/// Reversal turns a concatenation round: the second part comes first.
pub proof fn lemma_reversed_concat(a: Seq<char>, b: Seq<char>)
    ensures
        reversed(a + b) == reversed(b) + reversed(a),
{
    assert(reversed(a + b) =~= reversed(b) + reversed(a));
}

/// Returns the characters of `s` in reverse order. A character is a Unicode
/// scalar value, as in `char`. Each character is found by walking `s` from
/// its start, so the time taken grows with the square of the length.
pub fn reverse_string(s: &str) -> (r: String)
    ensures
        r@ == reversed(s@),
        r@.len() == s@.len(),
        forall|i: int| 0 <= i < s@.len() ==> r@[i] == s@[s@.len() - 1 - i],
{
    let n: usize = s.unicode_len();
    let mut out: String = String::new();
    let mut left: usize = n;
    while left > 0
        invariant
            n == s@.len(),
            left <= n,
            out@.len() == n - left,
            forall|i: int| 0 <= i < out@.len() ==> out@[i] == s@[n - 1 - i],
        decreases left,
    {
        let one: &str = s.substring_char(left - 1, left);
        out.append(one);
        left -= 1;
    }
    proof {
        assert(out@ =~= reversed(s@));
    }
    out
}

} // verus!
