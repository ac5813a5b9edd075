use vstd::prelude::*;

verus! {

/// Equality of two string slices, decided through owned copies so that the
/// outcome is pinned to the character sequences of both inputs.
pub fn str_eq(a: &str, b: &str) -> (r: bool)
    ensures
        r == (a@ == b@),
{
    let owned_a: String = a.to_owned();
    let owned_b: String = b.to_owned();
    owned_a == owned_b
}

} // verus!
