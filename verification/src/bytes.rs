//! Comparing and copying byte arrays and optional values.
use vstd::prelude::*;

verus! {

/// Whether two byte arrays are equal.
pub fn same_bytes<const N: usize>(a: &[u8; N], b: &[u8; N]) -> (r: bool)
    ensures
        r == (*a == *b),
{
    let mut i: usize = 0;
    while i < N
        invariant
            i <= N,
            forall|j: int| 0 <= j < i ==> a@[j] == b@[j],
        decreases N - i,
    {
        if a[i] != b[i] {
            assert(a@[i as int] != b@[i as int]);
            return false;
        }
        i = i + 1;
    }
    assert(*a =~= *b);
    true
}

/// Whether two optional byte arrays are equal.
pub fn same_optional_bytes<const N: usize>(a: &Option<[u8; N]>, b: &Option<[u8; N]>) -> (r: bool)
    ensures
        r == (*a == *b),
{
    match (a, b) {
        (Some(x), Some(y)) => same_bytes(x, y),
        (None, None) => true,
        _ => false,
    }
}

/// The characters of an optional text.
pub open spec fn text_view(text: Option<String>) -> Option<Seq<char>> {
    match text {
        Some(t) => Some(t@),
        None => None,
    }
}

/// Whether two optional texts are equal.
pub fn same_optional_text(a: &Option<String>, b: &Option<String>) -> (r: bool)
    ensures
        r == (text_view(*a) == text_view(*b)),
{
    match (a, b) {
        (Some(x), Some(y)) => *x == *y,
        (None, None) => true,
        _ => false,
    }
}

/// A copy of an optional text.
pub fn copy_optional_text(text: &Option<String>) -> (r: Option<String>)
    ensures
        r == *text,
{
    match text {
        Some(t) => Some(t.clone()),
        None => None,
    }
}

} // verus!
