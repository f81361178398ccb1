//! Texts, and names compared without regard to the case of ASCII letters.

use vstd::prelude::*;
use vstd::string::StrSliceExecFns;

verus! {

/// The text that an optional string holds.
pub open spec fn text_of(o: Option<String>) -> Option<Seq<char>> {
    match o {
        Some(s) => Some(s@),
        None => None,
    }
}

/// The code of `c` with an ASCII capital letter taken to its small letter.
pub open spec fn folded(c: char) -> u32 {
    if 'A' <= c && c <= 'Z' {
        (c as u32 + 32) as u32
    } else {
        c as u32
    }
}

/// `a` and `b` have the same length and agree at every position once ASCII
/// letters are taken to one case.
pub open spec fn equal_ignoring_case(a: Seq<char>, b: Seq<char>) -> bool {
    &&& a.len() == b.len()
    &&& forall|i: int| 0 <= i < a.len() ==> #[trigger] folded(a[i]) == folded(b[i])
}

/// The relation is symmetric and transitive, so a name that matches one
/// spelling of a word matches every other spelling of it.
pub proof fn lemma_equal_ignoring_case_transitive(a: Seq<char>, b: Seq<char>, c: Seq<char>)
    requires
        equal_ignoring_case(a, b),
        equal_ignoring_case(b, c),
    ensures
        equal_ignoring_case(a, c),
        equal_ignoring_case(c, a),
{
    assert forall|i: int| 0 <= i < a.len() implies #[trigger] folded(a[i]) == folded(c[i]) by {
        assert(folded(a[i]) == folded(b[i]));
        assert(folded(b[i]) == folded(c[i]));
    }
    assert forall|i: int| 0 <= i < c.len() implies #[trigger] folded(c[i]) == folded(a[i]) by {
        assert(folded(a[i]) == folded(b[i]));
        assert(folded(b[i]) == folded(c[i]));
    }
}

fn fold_char(c: char) -> (r: u32)
    ensures
        r == folded(c),
{
    if 'A' <= c && c <= 'Z' {
        c as u32 + 32
    } else {
        c as u32
    }
}

/// Whether `s` spells `word`, ignoring the case of ASCII letters.
pub fn equals_ignoring_case(s: &str, word: &str) -> (r: bool)
    ensures
        r == equal_ignoring_case(s@, word@),
{
    let n = s.unicode_len();
    let m = word.unicode_len();
    if n != m {
        return false;
    }
    let mut i: usize = 0;
    while i < n
        invariant
            n == s@.len(),
            m == word@.len(),
            n == m,
            i <= n,
            forall|j: int| 0 <= j < i ==> #[trigger] folded(s@[j]) == folded(word@[j]),
        decreases n - i,
    {
        let a = s.get_char(i);
        let b = word.get_char(i);
        if fold_char(a) != fold_char(b) {
            return false;
        }
        i = i + 1;
    }
    true
}

} // verus!
