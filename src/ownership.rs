//! Owned text values moved into and out of functions, borrowed for reading
//! or for appending, and scanned for their first word.
use vstd::prelude::*;
use vstd::utf8::encode_utf8;

verus! {

/// Number of bytes that the UTF-8 encoding of `s` takes.
pub open spec fn byte_len(s: Seq<char>) -> nat {
    encode_utf8(s).len()
}

/// Whether `w` is the first word of `s`: the longest prefix of `s` without a
/// space, which is all of `s` when `s` has no space.
pub open spec fn is_first_word(s: Seq<char>, w: Seq<char>) -> bool {
    &&& w.len() <= s.len()
    &&& w == s.subrange(0, w.len() as int)
    &&& forall|i: int| 0 <= i < w.len() ==> w[i] != ' '
    &&& (w.len() == s.len() || s[w.len() as int] == ' ')
}

/// A freshly made text value that the caller owns: `"yours"`.
pub fn gives_ownership() -> (r: String)
    ensures
        r@ == "yours"@,
{
    String::from_str("yours")
}

/// Takes ownership of `a_string` and hands it back unchanged.
pub fn takes_and_gives_back(a_string: String) -> (r: String)
    ensures
        r@ == a_string@,
{
    a_string
}

/// Hands `s` back together with its length in bytes.
pub fn calculate_length(s: String) -> (r: (String, usize))
    ensures
        r.0@ == s@,
        r.1 == byte_len(s@) as usize,
{
    let length = s.as_str().len();
    (s, length)
}

/// Appends `", world!"` to `s` through a mutable borrow and returns the new
/// length in bytes.
pub fn calculate_length1(s: &mut String) -> (r: usize)
    ensures
        final(s)@ == old(s)@ + ", world!"@,
        r == byte_len(final(s)@) as usize,
{
    s.append(", world!");
    s.as_str().len()
}

/// The first word of `s`: the prefix up to, not including, the first space,
/// or all of `s` when it has none.
pub fn first_word(s: &String) -> (r: &str)
    ensures
        is_first_word(s@, r@),
{
    let text = s.as_str();
    let n = text.unicode_len();
    let mut i: usize = 0;
    while i < n
        invariant
            text@ == s@,
            n == s@.len(),
            i <= n,
            forall|j: int| 0 <= j < i ==> s@[j] != ' ',
        decreases n - i,
    {
        if text.get_char(i) == ' ' {
            let w = text.substring_char(0, i);
            return w;
        }
        i = i + 1;
    }
    text.substring_char(0, n)
}

} // verus!
