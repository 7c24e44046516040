//! Case-insensitive comparison of names: ASCII letters fold to lower case,
//! every other character compares as itself.
use vstd::prelude::*;

verus! {

pub open spec fn is_ascii_upper(c: char) -> bool {
    65 <= c as u32 && c as u32 <= 90
}

/// Two characters are equal once ASCII upper-case letters are folded to lower case.
pub open spec fn chars_match(a: char, b: char) -> bool {
    ||| a as u32 == b as u32
    ||| (is_ascii_upper(a) && a as u32 + 32 == b as u32)
    ||| (is_ascii_upper(b) && b as u32 + 32 == a as u32)
}

/// Two names are equal up to the case of their ASCII letters.
pub open spec fn names_match(a: Seq<char>, b: Seq<char>) -> bool {
    &&& a.len() == b.len()
    &&& forall|i: int| 0 <= i < a.len() ==> #[trigger] chars_match(a[i], b[i])
}

pub fn char_matches(a: char, b: char) -> (r: bool)
    ensures
        r == chars_match(a, b),
{
    let x = a as u32;
    let y = b as u32;
    if x == y {
        true
    } else if 65 <= x && x <= 90 && x + 32 == y {
        true
    } else {
        65 <= y && y <= 90 && y + 32 == x
    }
}

/// Compares two names, ignoring the case of ASCII letters.
pub fn name_matches(a: &str, b: &str) -> (r: bool)
    ensures
        r == names_match(a@, b@),
{
    let n = a.unicode_len();
    if n != b.unicode_len() {
        return false;
    }
    let mut i: usize = 0;
    while i < n
        invariant
            n == a@.len(),
            n == b@.len(),
            i <= n,
            forall|j: int| 0 <= j < i ==> #[trigger] chars_match(a@[j], b@[j]),
        decreases n - i,
    {
        if !char_matches(a.get_char(i), b.get_char(i)) {
            return false;
        }
        i = i + 1;
    }
    true
}

/// Matching is symmetric.
pub proof fn lemma_names_match_symm(a: Seq<char>, b: Seq<char>)
    requires
        names_match(a, b),
    ensures
        names_match(b, a),
{
    assert forall|i: int| 0 <= i < b.len() implies #[trigger] chars_match(b[i], a[i]) by {
        assert(chars_match(a[i], b[i]));
    }
}

/// Matching is transitive.
pub proof fn lemma_names_match_trans(a: Seq<char>, b: Seq<char>, c: Seq<char>)
    requires
        names_match(a, b),
        names_match(b, c),
    ensures
        names_match(a, c),
{
    assert forall|i: int| 0 <= i < a.len() implies #[trigger] chars_match(a[i], c[i]) by {
        assert(chars_match(a[i], b[i]));
        assert(chars_match(b[i], c[i]));
    }
}

} // verus!
