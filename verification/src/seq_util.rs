//! A small shared fact about mapped sequences.

use vstd::prelude::*;

verus! {

/// Mapping a function over a sequence extended by one element extends
/// the mapped sequence by the image of that element.
pub proof fn lemma_map_values_push<A, B>(s: Seq<A>, f: spec_fn(A) -> B, x: A)
    ensures
        (s.push(x)).map_values(f) == s.map_values(f).push(f(x)),
{
    assert((s.push(x)).map_values(f) =~= s.map_values(f).push(f(x)));
}

} // verus!
