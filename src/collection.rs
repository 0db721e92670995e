//! A growable sequence read by index, safely or directly, and changed in
//! place; a growable text buffer built by concatenation.
use vstd::prelude::*;

verus! {

/// Appends each of `values` to `v`, in order.
pub fn push_values(v: &mut Vec<i32>, values: &Vec<i32>)
    ensures
        final(v)@ == old(v)@ + values@,
{
    let mut i: usize = 0;
    while i < values.len()
        invariant
            i <= values@.len(),
            v@ == old(v)@ + values@.subrange(0, i as int),
        decreases values@.len() - i,
    {
        v.push(values[i]);
        i += 1;
        assert(values@.subrange(0, i as int) =~= values@.subrange(0, i - 1) + seq![values@[i - 1]]);
    }
    assert(values@.subrange(0, i as int) =~= values@);
}

/// The element at `index`, read directly; `index` must be in range.
pub fn element_at(v: &Vec<i32>, index: usize) -> (r: i32)
    requires
        index < v@.len(),
    ensures
        r == v@[index as int],
{
    v[index]
}

/// The element at `index` if there is one, else `None`; never fails.
pub fn get_element(v: &Vec<i32>, index: usize) -> (r: Option<i32>)
    ensures
        index < v@.len() ==> r == Some(v@[index as int]),
        index >= v@.len() ==> r is None,
{
    match v.get(index) {
        Some(x) => Some(*x),
        None => None,
    }
}

/// Adds `amount` to every element of `v`, in place.
pub fn add_to_each(v: &mut Vec<i32>, amount: i32)
    requires
        forall|i: int|
            0 <= i < old(v)@.len() ==> i32::MIN <= #[trigger] old(v)@[i] + amount <= i32::MAX,
    ensures
        final(v)@.len() == old(v)@.len(),
        forall|i: int| 0 <= i < final(v)@.len() ==> #[trigger] final(v)@[i] == old(v)@[i] + amount,
{
    let n = v.len();
    let mut i: usize = 0;
    while i < n
        invariant
            n == old(v)@.len(),
            forall|j: int|
                0 <= j < n ==> i32::MIN <= #[trigger] old(v)@[j] + amount <= i32::MAX,
            v@.len() == n,
            i <= n,
            forall|j: int| 0 <= j < i ==> #[trigger] v@[j] == old(v)@[j] + amount,
            forall|j: int| i <= j < n ==> #[trigger] v@[j] == old(v)@[j],
        decreases n - i,
    {
        let x = v[i] + amount;
        v.set(i, x);
        i += 1;
    }
}

/// `s1` followed by `"-"`, `s2`, `"-"` and `s3`; `s1` is used up, the others
/// are borrowed.
pub fn join_with_dashes(s1: String, s2: &str, s3: &str) -> (r: String)
    ensures
        r@ == s1@ + "-"@ + s2@ + "-"@ + s3@,
{
    s1.concat("-").concat(s2).concat("-").concat(s3)
}

} // verus!
