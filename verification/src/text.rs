//! Character-level operations on text that the command handling relies on.

use vstd::prelude::*;

verus! {

/// Whether `text` begins with `prefix`, compared character by character.
pub fn starts_with(text: &str, prefix: &str) -> (r: bool)
    ensures
        r == prefix@.is_prefix_of(text@),
{
    let n = prefix.unicode_len();
    let m = text.unicode_len();
    if n > m {
        return false;
    }
    let mut i: usize = 0;
    while i < n
        invariant
            i <= n,
            n == prefix@.len(),
            m == text@.len(),
            n <= m,
            forall|k: int| 0 <= k < i ==> prefix@[k] == text@[k],
        decreases n - i,
    {
        if prefix.get_char(i) != text.get_char(i) {
            assert(prefix@[i as int] != text@.subrange(0, n as int)[i as int]);
            return false;
        }
        i += 1;
    }
    assert(prefix@ =~= text@.subrange(0, n as int));
    true
}

/// Whether two texts hold the same characters.
pub fn equals(a: &str, b: &str) -> (r: bool)
    ensures
        r == (a@ == b@),
{
    let n = a.unicode_len();
    if n != b.unicode_len() {
        return false;
    }
    let same = starts_with(a, b);
    if same {
        assert(a@ =~= b@);
    } else {
        assert(a@ != b@) by {
            if a@ == b@ {
                assert(b@ =~= a@.subrange(0, b@.len() as int));
            }
        }
    }
    same
}

} // verus!
